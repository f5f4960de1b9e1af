use vstd::prelude::*;

verus! {

/// Relies on std's String::push: appends the given character to the end of
/// the string.
pub assume_specification[ String::push ](s: &mut String, ch: char)
    ensures
        final(s)@ == old(s)@.push(ch),
;

/// Relies on std's String::pop: removes the last character from the string
/// and returns it, or returns None when the string is empty.
pub assume_specification[ String::pop ](s: &mut String) -> (r: Option<char>)
    ensures
        old(s)@.len() == 0 ==> r is None && final(s)@ == old(s)@,
        old(s)@.len() > 0 ==> r == Some(old(s)@.last()) && final(s)@ == old(s)@.drop_last(),
;

/// A string of `n` spaces.
pub fn spaces(n: usize) -> (r: String)
    ensures
        r@ =~= Seq::new(n as nat, |k: int| ' '),
{
    let mut out = String::new();
    let mut produced: usize = 0;
    while produced < n
        invariant
            produced <= n,
            out@ =~= Seq::new(produced as nat, |k: int| ' '),
        decreases n - produced,
    {
        out.push(' ');
        produced = produced + 1;
    }
    out
}

} // verus!

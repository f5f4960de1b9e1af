use vstd::prelude::*;
use vstd::string::StrSliceExecFns;

verus! {

/// The number of terminal columns one character occupies, `None` for a
/// control character.
pub uninterp spec fn char_display_width(c: char) -> Option<usize>;

/// The number of terminal columns a whole text occupies (which, for some
/// sequences, is not the sum of its characters' widths).
pub uninterp spec fn str_display_width(s: Seq<char>) -> nat;

/// Relies on unicode_width's UnicodeWidthChar::width: the display width of
/// one character, which depends on the character alone.
#[verifier::external_body]
fn display_width_of_char(c: char) -> (r: Option<usize>)
    ensures
        r == char_display_width(c),
{
    unicode_width::UnicodeWidthChar::width(c)
}

/// Relies on unicode_width's UnicodeWidthStr::width: the display width of a
/// text, which depends on its characters alone.
#[verifier::external_body]
fn display_width_of_str(s: &str) -> (r: usize)
    ensures
        r == str_display_width(s@),
{
    unicode_width::UnicodeWidthStr::width(s)
}

/// A character's width with control characters counted as zero.
pub open spec fn width_or_zero(c: char) -> int {
    match char_display_width(c) {
        Some(w) => w as int,
        None => 0,
    }
}

/// How many trailing characters of `s` fit a column budget, taking whole
/// characters greedily from the end.
pub open spec fn tail_fit_len(s: Seq<char>, budget: int) -> int
    decreases s.len(),
{
    if s.len() == 0 {
        0
    } else {
        let w = width_or_zero(s.last());
        if w > budget {
            0
        } else {
            1 + tail_fit_len(s.drop_last(), budget - w)
        }
    }
}

/// The tail of a command-line buffer that fits the overlay: the whole text
/// when its display width fits; otherwise the longest suffix of whole
/// characters whose widths, summed greedily from the end, stay within
/// `max_width` (and nothing for a zero budget).
#[verifier::loop_isolation(false)]
pub fn tail_by_display_width(s: &str, max_width: usize) -> (r: String)
    ensures
        max_width == 0 ==> r@ == Seq::<char>::empty(),
        max_width > 0 && str_display_width(s@) <= max_width ==> r@ == s@,
        max_width > 0 && str_display_width(s@) > max_width ==> r@ == s@.subrange(
            s@.len() - tail_fit_len(s@, max_width as int),
            s@.len() as int,
        ),
{
    if max_width == 0 {
        return String::new();
    }
    if display_width_of_str(s) <= max_width {
        return s.to_owned();
    }

    let len = s.unicode_len();
    let mut fit: usize = 0;
    let mut used: usize = 0;
    proof {
        assert(s@.subrange(0, len as int) =~= s@);
    }
    while fit < len && fits_one_more(s, len, fit, max_width - used)
        invariant
            fit <= len == s@.len(),
            used <= max_width,
            tail_fit_len(s@, max_width as int) == fit + tail_fit_len(
                s@.subrange(0, (len - fit) as int),
                max_width - used,
            ),
        decreases len - fit,
    {
        let c = s.get_char(len - 1 - fit);
        let w: usize = match display_width_of_char(c) {
            Some(w) => w,
            None => 0,
        };
        let ghost prefix = s@.subrange(0, (len - fit) as int);
        proof {
            assert(prefix.last() == c);
            assert(width_or_zero(c) == w);
            assert(prefix.drop_last() =~= s@.subrange(0, (len - fit - 1) as int));
        }
        used = used + w;
        fit = fit + 1;
    }
    proof {
        let prefix = s@.subrange(0, (len - fit) as int);
        if fit < len {
            assert(prefix.last() == s@[len - 1 - fit]);
            assert(tail_fit_len(prefix, max_width - used) == 0);
        } else {
            assert(prefix =~= Seq::<char>::empty());
        }
        assert(tail_fit_len(s@, max_width as int) == fit);
    }
    s.substring_char(len - fit, len).to_owned()
}

/// Whether the next trailing character (counting `fit` already taken) fits
/// the remaining column budget.
fn fits_one_more(s: &str, len: usize, fit: usize, budget: usize) -> (r: bool)
    requires
        fit < len <= s@.len(),
    ensures
        r == (width_or_zero(s@[len - 1 - fit]) <= budget),
{
    match display_width_of_char(s.get_char(len - 1 - fit)) {
        Some(w) => w <= budget,
        None => true,
    }
}

/// The centred crop of a line to `width` characters: the line itself when it
/// already fits, else the middle `width` characters.
pub fn center_crop(line: &str, width: u16) -> (r: String)
    ensures
        width == 0 || line@.len() <= width ==> r@ == line@,
        width > 0 && line@.len() > width ==> r@ == line@.subrange(
            (line@.len() - width) / 2,
            (line@.len() - width) / 2 + width,
        ),
{
    let len = line.unicode_len();
    if width == 0 || len <= width as usize {
        return line.to_owned();
    }
    let start = (len - width as usize) / 2;
    line.substring_char(start, start + width as usize).to_owned()
}

/// The ten digit characters.
pub open spec fn spec_digit_char(d: int) -> char {
    if d == 0 {
        '0'
    } else if d == 1 {
        '1'
    } else if d == 2 {
        '2'
    } else if d == 3 {
        '3'
    } else if d == 4 {
        '4'
    } else if d == 5 {
        '5'
    } else if d == 6 {
        '6'
    } else if d == 7 {
        '7'
    } else if d == 8 {
        '8'
    } else {
        '9'
    }
}

/// The decimal digits of a number, most significant first.
pub open spec fn spec_decimal(n: int) -> Seq<char>
    decreases n,
{
    if n < 10 {
        seq![spec_digit_char(n)]
    } else {
        spec_decimal(n / 10).push(spec_digit_char(n % 10))
    }
}

/// A number padded to at least two digits with a leading zero.
pub open spec fn spec_two_digits(n: int) -> Seq<char> {
    if n < 10 {
        seq!['0'] + spec_decimal(n)
    } else {
        spec_decimal(n)
    }
}

/// `HH:MM:SS` for a number of seconds, each part zero-padded to two digits
/// (the hours grow wider past 99).
pub open spec fn spec_hms(total_seconds: u64) -> Seq<char> {
    spec_two_digits(total_seconds as int / 3600) + seq![':'] + spec_two_digits(
        (total_seconds as int % 3600) / 60,
    ) + seq![':'] + spec_two_digits(total_seconds as int % 60)
}

fn digit_char(d: u64) -> (r: char)
    requires
        d < 10,
    ensures
        r == spec_digit_char(d as int),
{
    if d == 0 {
        '0'
    } else if d == 1 {
        '1'
    } else if d == 2 {
        '2'
    } else if d == 3 {
        '3'
    } else if d == 4 {
        '4'
    } else if d == 5 {
        '5'
    } else if d == 6 {
        '6'
    } else if d == 7 {
        '7'
    } else if d == 8 {
        '8'
    } else {
        '9'
    }
}

fn push_decimal(out: &mut String, n: u64)
    ensures
        final(out)@ == old(out)@ + spec_decimal(n as int),
    decreases n,
{
    if n >= 10 {
        push_decimal(out, n / 10);
    }
    out.push(digit_char(n % 10));
    proof {
        if n < 10 {
            assert(old(out)@ + spec_decimal(n as int) =~= old(out)@.push(
                spec_digit_char(n as int),
            ));
        } else {
            assert(old(out)@ + spec_decimal(n as int) =~= (old(out)@ + spec_decimal(
                n as int / 10,
            )).push(spec_digit_char(n as int % 10)));
        }
    }
}

fn push_two_digits(out: &mut String, n: u64)
    ensures
        final(out)@ == old(out)@ + spec_two_digits(n as int),
{
    if n < 10 {
        out.push('0');
    }
    push_decimal(out, n);
    proof {
        if n < 10 {
            assert(old(out)@ + spec_two_digits(n as int) =~= old(out)@.push('0') + spec_decimal(
                n as int,
            ));
        }
    }
}

/// Formats a number of seconds as zero-padded `HH:MM:SS`.
pub fn format_hms(total_seconds: u64) -> (r: String)
    ensures
        r@ == spec_hms(total_seconds),
{
    let hours = total_seconds / 3600;
    let minutes = (total_seconds % 3600) / 60;
    let seconds = total_seconds % 60;
    let mut out = String::new();
    push_two_digits(&mut out, hours);
    out.push(':');
    push_two_digits(&mut out, minutes);
    out.push(':');
    push_two_digits(&mut out, seconds);
    proof {
        assert(out@ =~= spec_hms(total_seconds));
    }
    out
}

} // verus!

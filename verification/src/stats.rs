use vstd::prelude::*;
use vstd::string::StrSliceExecFns;

verus! {

broadcast use vstd::seq::group_seq_axioms;

/// Lines of code added and removed in the working tree, summed from the
/// tab-separated per-file counts that `git diff --numstat` prints.
#[derive(Debug, Clone, Copy, PartialEq, Eq, Structural)]
pub struct LocDelta {
    pub added: u64,
    pub removed: u64,
}

/// Index of the first occurrence of `c` in `s`, or `s.len()` when absent.
pub open spec fn first_occ(s: Seq<char>, c: char) -> int
    decreases s.len(),
{
    if s.len() == 0 {
        0
    } else if s[0] == c {
        0
    } else {
        1 + first_occ(s.drop_first(), c)
    }
}

/// A scan that saw no `c` before `j` and either the end or a `c` at `j` has
/// found the first occurrence.
proof fn lemma_first_occ_is(s: Seq<char>, c: char, j: int)
    requires
        0 <= j <= s.len(),
        forall|k: int| 0 <= k < j ==> s[k] != c,
        j == s.len() || s[j] == c,
    ensures
        first_occ(s, c) == j,
    decreases s.len(),
{
    if s.len() == 0 {
    } else if s[0] == c {
        assert(j == 0);
    } else {
        assert(j >= 1);
        let t = s.drop_first();
        assert(forall|k: int| 0 <= k < j - 1 ==> t[k] == s[k + 1] && s[k + 1] != c);
        lemma_first_occ_is(t, c, j - 1);
    }
}

pub open spec fn is_digit(c: char) -> bool {
    48 <= c as int <= 57
}

pub open spec fn all_digits(s: Seq<char>) -> bool {
    forall|i: int| 0 <= i < s.len() ==> is_digit(#[trigger] s[i])
}

/// Value of a digit string read in base ten.
pub open spec fn digits_val(s: Seq<char>) -> int
    decreases s.len(),
{
    if s.len() == 0 {
        0
    } else {
        digits_val(s.drop_last()) * 10 + (s.last() as int - 48)
    }
}

proof fn lemma_digits_val_nonneg(s: Seq<char>)
    requires
        all_digits(s),
    ensures
        digits_val(s) >= 0,
    decreases s.len(),
{
    if s.len() > 0 {
        assert(all_digits(s.drop_last()));
        lemma_digits_val_nonneg(s.drop_last());
    }
}

/// Appending digits never shrinks the value.
proof fn lemma_digits_val_prefix_le(s: Seq<char>, j: int)
    requires
        all_digits(s),
        0 <= j <= s.len(),
    ensures
        digits_val(s.subrange(0, j)) <= digits_val(s),
    decreases s.len() - j,
{
    if j == s.len() {
        assert(s.subrange(0, j) =~= s);
    } else {
        let p = s.subrange(0, j);
        let q = s.subrange(0, j + 1);
        assert(q.drop_last() =~= p);
        assert(all_digits(p));
        lemma_digits_val_nonneg(p);
        assert(digits_val(q) == digits_val(p) * 10 + (q.last() as int - 48));
        lemma_digits_val_prefix_le(s, j + 1);
    }
}

/// What `str::parse::<u64>` accepts of a field: an optional leading plus
/// sign, then one or more decimal digits whose value fits a `u64`.
pub open spec fn spec_parse_u64(s: Seq<char>) -> Option<u64> {
    let t = if s.len() >= 1 && s[0] == '+' {
        s.subrange(1, s.len() as int)
    } else {
        s
    };
    if t.len() == 0 || !all_digits(t) || digits_val(t) > u64::MAX {
        None
    } else {
        Some(digits_val(t) as u64)
    }
}

pub open spec fn sat_add_u64(a: u64, b: u64) -> u64 {
    if a + b > u64::MAX {
        u64::MAX
    } else {
        (a + b) as u64
    }
}

/// A line with a trailing carriage return (from CRLF endings) loses it.
pub open spec fn spec_strip_cr(line: Seq<char>) -> Seq<char> {
    if line.len() > 0 && line.last() == '\r' {
        line.drop_last()
    } else {
        line
    }
}

/// The (added, removed) pair of one numstat line: the first two tab-separated
/// fields, both numeric; a line with a missing or non-numeric field (such as
/// the `-` that marks a binary file) counts nothing.
pub open spec fn spec_line_delta(line: Seq<char>) -> Option<(u64, u64)> {
    let t1 = first_occ(line, '\t');
    let a_field = line.subrange(0, t1);
    let rest = if t1 >= line.len() {
        Seq::<char>::empty()
    } else {
        line.subrange(t1 + 1, line.len() as int)
    };
    let t2 = first_occ(rest, '\t');
    let r_field = rest.subrange(0, t2);
    match (spec_parse_u64(a_field), spec_parse_u64(r_field)) {
        (Some(a), Some(r)) => Some((a, r)),
        _ => None,
    }
}

pub open spec fn spec_acc_line(acc: (u64, u64), line: Seq<char>) -> (u64, u64) {
    match spec_line_delta(line) {
        Some((a, r)) => (sat_add_u64(acc.0, a), sat_add_u64(acc.1, r)),
        None => acc,
    }
}

/// Folds the remaining input, one newline-separated line at a time, into the
/// accumulated totals.
pub open spec fn spec_numstat_from(s: Seq<char>, acc: (u64, u64)) -> (u64, u64)
    decreases s.len(),
{
    if s.len() == 0 {
        acc
    } else {
        let n = first_occ(s, '\n');
        if n < 0 || n > s.len() {
            acc
        } else {
            let line = spec_strip_cr(s.subrange(0, n));
            let rest = if n == s.len() {
                Seq::<char>::empty()
            } else {
                s.subrange(n + 1, s.len() as int)
            };
            spec_numstat_from(rest, spec_acc_line(acc, line))
        }
    }
}

/// The totals `git diff --numstat` output sums to.
pub open spec fn spec_numstat(s: Seq<char>) -> (u64, u64) {
    spec_numstat_from(s, (0u64, 0u64))
}

/// Parses the digits of `s` between `from` and `to` exactly as
/// `str::parse::<u64>` would.
#[verifier::loop_isolation(false)]
fn parse_u64_field(s: &str, from: usize, to: usize) -> (r: Option<u64>)
    requires
        from <= to <= s@.len(),
    ensures
        r == spec_parse_u64(s@.subrange(from as int, to as int)),
{
    let ghost field = s@.subrange(from as int, to as int);
    let mut i = from;
    if i < to && s.get_char(i) == '+' {
        i = i + 1;
    }
    let ghost t = s@.subrange(i as int, to as int);
    proof {
        if field.len() >= 1 && field[0] == '+' {
            assert(t =~= field.subrange(1, field.len() as int));
        } else {
            assert(t =~= field);
        }
    }
    if i == to {
        return None;
    }
    let ghost start = i as int;
    let mut acc: u64 = 0;
    while i < to
        invariant
            0 <= start <= i <= to <= s@.len(),
            t == s@.subrange(start, to as int),
            t.len() == to - start,
            all_digits(t.subrange(0, i - start)),
            acc == digits_val(t.subrange(0, i - start)),
        decreases to - i,
    {
        let c = s.get_char(i);
        let u = c as u32;
        proof {
            let j = i - start;
            assert(t == s@.subrange(start, to as int));
            vstd::seq::axiom_seq_subrange_index(s@, start, to as int, j);
            assert(t[j] == c);
            assert(c as int == u as int);
        }
        if u < 48 || u > 57 {
            assert(!is_digit(t[i - start]));
            return None;
        }
        let d: u64 = (u - 48) as u64;
        let ghost p = t.subrange(0, i - start);
        let ghost q = t.subrange(0, i + 1 - start);
        proof {
            assert(q.drop_last() =~= p);
            assert(q.last() == t[i - start]);
            assert(is_digit(t[i - start]));
            assert(all_digits(q));
            assert(digits_val(q) == digits_val(p) * 10 + d);
        }
        let grown = match acc.checked_mul(10) {
            Some(m) => m.checked_add(d),
            None => None,
        };
        match grown {
            Some(v) => {
                acc = v;
            },
            None => {
                proof {
                    assert(digits_val(q) > u64::MAX);
                    if all_digits(t) {
                        lemma_digits_val_prefix_le(t, i + 1 - start);
                        assert(digits_val(t) > u64::MAX);
                    }
                }
                return None;
            },
        }
        i = i + 1;
    }
    proof {
        assert(t.subrange(0, to - start) =~= t);
    }
    Some(acc)
}

/// The contribution of one numstat line, exactly as [`spec_line_delta`]
/// states it.
fn line_delta(line: &str) -> (r: Option<(u64, u64)>)
    ensures
        r == spec_line_delta(line@),
{
    let ghost lv = line@;
    let llen = line.unicode_len();
    let mut t1: usize = 0;
    while t1 < llen && line.get_char(t1) != '\t'
        invariant
            t1 <= llen == lv.len(),
            line@ == lv,
            forall|k: int| 0 <= k < t1 ==> lv[k] != '\t',
        decreases llen - t1,
    {
        t1 = t1 + 1;
    }
    proof {
        lemma_first_occ_is(lv, '\t', t1 as int);
    }
    let a_parsed = parse_u64_field(line, 0, t1);

    let rest_start = if t1 < llen {
        t1 + 1
    } else {
        llen
    };
    let ghost rest = if t1 < llen {
        lv.subrange(t1 + 1, llen as int)
    } else {
        Seq::<char>::empty()
    };
    let mut t2: usize = rest_start;
    while t2 < llen && line.get_char(t2) != '\t'
        invariant
            rest_start <= t2 <= llen == lv.len(),
            line@ == lv,
            forall|k: int| rest_start <= k < t2 ==> lv[k] != '\t',
        decreases llen - t2,
    {
        t2 = t2 + 1;
    }
    proof {
        if t1 < llen {
            assert(forall|k: int| 0 <= k < t2 - rest_start ==> rest[k] == lv[rest_start + k]);
            lemma_first_occ_is(rest, '\t', t2 - rest_start);
        } else {
            lemma_first_occ_is(rest, '\t', 0);
        }
        assert(lv.subrange(rest_start as int, t2 as int) =~= rest.subrange(
            0,
            first_occ(rest, '\t'),
        ));
    }
    let r_parsed = parse_u64_field(line, rest_start, t2);

    match (a_parsed, r_parsed) {
        (Some(a), Some(r)) => Some((a, r)),
        _ => None,
    }
}

impl LocDelta {
    /// Sums the added and removed line counts over every line of
    /// `git diff --numstat` output, skipping binary-file entries and any
    /// line whose first two tab-separated fields are not both numbers.
    pub fn parse_git_numstat(output: &str) -> (r: Self)
        ensures
            (r.added, r.removed) == spec_numstat(output@),
    {
        let len = output.unicode_len();
        let mut pos: usize = 0;
        let mut added: u64 = 0;
        let mut removed: u64 = 0;
        proof {
            assert(output@.subrange(0, len as int) =~= output@);
        }
        while pos < len
            invariant
                pos <= len == output@.len(),
                spec_numstat_from(output@.subrange(pos as int, len as int), (added, removed))
                    == spec_numstat(output@),
            decreases len - pos,
        {
            let ghost suffix = output@.subrange(pos as int, len as int);
            // find the end of the current line
            let mut e = pos;
            while e < len && output.get_char(e) != '\n'
                invariant
                    pos <= e <= len == output@.len(),
                    forall|k: int| pos <= k < e ==> output@[k] != '\n',
                decreases len - e,
            {
                e = e + 1;
            }
            proof {
                assert(forall|k: int| 0 <= k < e - pos ==> suffix[k] == output@[pos + k]);
                lemma_first_occ_is(suffix, '\n', e - pos);
            }
            let line_end = if e > pos && output.get_char(e - 1) == '\r' {
                e - 1
            } else {
                e
            };
            proof {
                let raw = suffix.subrange(0, e - pos);
                assert(raw =~= output@.subrange(pos as int, e as int));
                assert(spec_strip_cr(raw) =~= output@.subrange(pos as int, line_end as int));
            }
            let line = output.substring_char(pos, line_end);

            match line_delta(line) {
                Some((a, r)) => {
                    added = added.saturating_add(a);
                    removed = removed.saturating_add(r);
                },
                None => {},
            }

            let next_pos = if e < len {
                e + 1
            } else {
                len
            };
            proof {
                let n = first_occ(suffix, '\n');
                let spec_rest = if n == suffix.len() {
                    Seq::<char>::empty()
                } else {
                    suffix.subrange(n + 1, suffix.len() as int)
                };
                assert(output@.subrange(next_pos as int, len as int) =~= spec_rest);
            }
            pos = next_pos;
        }
        proof {
            assert(output@.subrange(pos as int, len as int) =~= Seq::<char>::empty());
        }
        LocDelta { added, removed }
    }
}

/// The streak a day-by-day history shows: how many consecutive days, newest
/// first, logged positive focus time before the first day that logged none.
pub open spec fn spec_streak_len(days: Seq<i64>) -> int
    decreases days.len(),
{
    if days.len() == 0 || days[0] <= 0 {
        0
    } else {
        1 + spec_streak_len(days.drop_first())
    }
}

proof fn lemma_streak_len_is(days: Seq<i64>, j: int)
    requires
        0 <= j <= days.len(),
        forall|k: int| 0 <= k < j ==> #[trigger] days[k] > 0,
        j == days.len() || days[j] <= 0,
    ensures
        spec_streak_len(days) == j,
    decreases days.len(),
{
    if days.len() == 0 || days[0] <= 0 {
        assert(j == 0);
    } else {
        assert(j >= 1);
        let t = days.drop_first();
        assert(forall|k: int| 0 <= k < j - 1 ==> t[k] == days[k + 1] && days[k + 1] > 0);
        lemma_streak_len_is(t, j - 1);
    }
}

/// Counts the streak over a day-by-day history of focus seconds, newest day
/// first.
#[verifier::loop_isolation(false)]
pub fn streak_len(daily_seconds: &Vec<i64>) -> (r: u32)
    requires
        daily_seconds@.len() <= u32::MAX,
    ensures
        r == spec_streak_len(daily_seconds@),
{
    let n = daily_seconds.len();
    let mut j: usize = 0;
    while j < n && daily_seconds[j] > 0
        invariant
            j <= n,
            forall|k: int| 0 <= k < j ==> #[trigger] daily_seconds@[k] > 0,
        decreases n - j,
    {
        j = j + 1;
    }
    proof {
        lemma_streak_len_is(daily_seconds@, j as int);
    }
    j as u32
}

} // verus!

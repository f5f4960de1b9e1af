use vstd::prelude::*;
use vstd::string::StrSliceExecFns;

verus! {

/// What a submitted command line asks for: starting or stopping a focus
/// session, or nothing the dashboard knows.
#[derive(Debug, Clone, Copy, PartialEq, Eq, Structural)]
pub enum FocusCommand {
    Start,
    Stop,
    Unknown,
}

pub open spec fn is_ascii_space(c: char) -> bool {
    c == ' ' || c == '\t' || c == '\n' || c == '\r'
}

/// Index of the first character that is not blank, or the length.
pub open spec fn first_non_space(s: Seq<char>) -> int
    decreases s.len(),
{
    if s.len() == 0 {
        0
    } else if !is_ascii_space(s[0]) {
        0
    } else {
        1 + first_non_space(s.drop_first())
    }
}

proof fn lemma_first_non_space_is(s: Seq<char>, j: int)
    requires
        0 <= j <= s.len(),
        forall|k: int| 0 <= k < j ==> is_ascii_space(#[trigger] s[k]),
        j == s.len() || !is_ascii_space(s[j]),
    ensures
        first_non_space(s) == j,
    decreases s.len(),
{
    if s.len() == 0 {
    } else if !is_ascii_space(s[0]) {
        assert(j == 0);
    } else {
        assert(j >= 1);
        let t = s.drop_first();
        assert(forall|k: int| 0 <= k < j - 1 ==> t[k] == s[k + 1] && is_ascii_space(s[k + 1]));
        lemma_first_non_space_is(t, j - 1);
    }
}

/// One past the last character that is not blank, or 0.
pub open spec fn last_non_space_end(s: Seq<char>) -> int
    decreases s.len(),
{
    if s.len() == 0 {
        0
    } else if !is_ascii_space(s.last()) {
        s.len() as int
    } else {
        last_non_space_end(s.drop_last())
    }
}

proof fn lemma_last_non_space_end_is(s: Seq<char>, j: int)
    requires
        0 <= j <= s.len(),
        forall|k: int| j <= k < s.len() ==> is_ascii_space(#[trigger] s[k]),
        j == 0 || !is_ascii_space(s[j - 1]),
    ensures
        last_non_space_end(s) == j,
    decreases s.len(),
{
    if s.len() == 0 {
    } else if !is_ascii_space(s.last()) {
        assert(j == s.len());
    } else {
        assert(j < s.len());
        let t = s.drop_last();
        assert(forall|k: int| j <= k < t.len() ==> t[k] == s[k] && is_ascii_space(s[k]));
        lemma_last_non_space_end_is(t, j);
    }
}

/// The blank-trimmed middle of a string.
pub open spec fn spec_trim(s: Seq<char>) -> Seq<char> {
    let a = first_non_space(s);
    let b = last_non_space_end(s);
    if a < b {
        s.subrange(a, b)
    } else {
        Seq::<char>::empty()
    }
}

pub open spec fn focus_prefix() -> Seq<char> {
    seq!['f', 'o', 'c', 'u', 's', ' ']
}

pub open spec fn start_word() -> Seq<char> {
    seq!['s', 't', 'a', 'r', 't']
}

pub open spec fn stop_word() -> Seq<char> {
    seq!['s', 't', 'o', 'p']
}

/// What a submitted command line means: after trimming, a line of the form
/// `focus <arg>` asks to start or stop a focus session when the trimmed
/// argument is `start` or `stop`; every other line asks nothing.
pub open spec fn spec_parse_focus_command(s: Seq<char>) -> FocusCommand {
    let t = spec_trim(s);
    if t.len() >= 6 && t.subrange(0, 6) == focus_prefix() {
        let arg = spec_trim(t.subrange(6, t.len() as int));
        if arg == start_word() {
            FocusCommand::Start
        } else if arg == stop_word() {
            FocusCommand::Stop
        } else {
            FocusCommand::Unknown
        }
    } else {
        FocusCommand::Unknown
    }
}

fn is_space_char(c: char) -> (r: bool)
    ensures
        r == is_ascii_space(c),
{
    c == ' ' || c == '\t' || c == '\n' || c == '\r'
}

/// The trimmed range `[a, b)` of `s` between `from` and `to`.
#[verifier::loop_isolation(false)]
fn trim_range(s: &str, from: usize, to: usize) -> (r: (usize, usize))
    requires
        from <= to <= s@.len(),
    ensures
        from <= r.0 <= r.1 <= to,
        ({
            let window = s@.subrange(from as int, to as int);
            spec_trim(window) == s@.subrange(r.0 as int, r.1 as int)
        }),
{
    let ghost window = s@.subrange(from as int, to as int);
    let mut a = from;
    while a < to && is_space_char(s.get_char(a))
        invariant
            from <= a <= to,
            forall|k: int| from <= k < a ==> is_ascii_space(#[trigger] s@[k]),
        decreases to - a,
    {
        a = a + 1;
    }
    proof {
        assert(forall|k: int| 0 <= k < a - from ==> window[k] == s@[from + k]);
        lemma_first_non_space_is(window, a - from);
    }
    let mut b = to;
    while b > a && is_space_char(s.get_char(b - 1))
        invariant
            a <= b <= to,
            forall|k: int| b <= k < to ==> is_ascii_space(#[trigger] s@[k]),
        decreases b,
    {
        b = b - 1;
    }
    if b == a {
        // the first scan only stops inside the window at a non-blank
        // character, which the second scan would have stopped at too; so the
        // scans only meet when the whole window is blank
        proof {
            assert(a == to);
            assert(forall|k: int|
                0 <= k < window.len() ==> window[k] == s@[from + k] && is_ascii_space(
                    s@[from + k],
                ));
            lemma_last_non_space_end_is(window, 0);
            assert(spec_trim(window) =~= s@.subrange(a as int, a as int));
        }
        return (a, a);
    }
    proof {
        assert(forall|k: int| b - from <= k < window.len() ==> window[k] == s@[from + k]);
        assert(window[b - from - 1] == s@[b - 1]);
        lemma_last_non_space_end_is(window, b - from);
        assert(spec_trim(window) =~= s@.subrange(a as int, b as int));
    }
    (a, b)
}

/// Parses a submitted command line, exactly as
/// [`spec_parse_focus_command`] states.
#[verifier::loop_isolation(false)]
#[verifier::rlimit(60)]
pub fn parse_focus_command(cmd: &str) -> (r: FocusCommand)
    ensures
        r == spec_parse_focus_command(cmd@),
{
    let len = cmd.unicode_len();
    let (a, b) = trim_range(cmd, 0, len);
    proof {
        assert(cmd@.subrange(0, len as int) =~= cmd@);
    }
    let ghost t = spec_trim(cmd@);
    if b - a < 6 {
        return FocusCommand::Unknown;
    }
    // the `focus ` prefix, character by character
    if !(cmd.get_char(a) == 'f' && cmd.get_char(a + 1) == 'o' && cmd.get_char(a + 2) == 'c'
        && cmd.get_char(a + 3) == 'u' && cmd.get_char(a + 4) == 's' && cmd.get_char(a + 5)
        == ' ') {
        proof {
            assert(t.subrange(0, 6) != focus_prefix()) by {
                if t.subrange(0, 6) == focus_prefix() {
                    assert(t[0] == 'f' && t[1] == 'o' && t[2] == 'c' && t[3] == 'u' && t[4] == 's'
                        && t[5] == ' ');
                }
            }
        }
        return FocusCommand::Unknown;
    }
    proof {
        assert(t.subrange(0, 6) =~= focus_prefix());
    }
    let (c, d) = trim_range(cmd, a + 6, b);
    let ghost arg = spec_trim(t.subrange(6, t.len() as int));
    proof {
        assert(t.subrange(6, t.len() as int) =~= cmd@.subrange(a + 6, b as int));
        assert(arg == cmd@.subrange(c as int, d as int));
    }
    if d - c == 5 && cmd.get_char(c) == 's' && cmd.get_char(c + 1) == 't' && cmd.get_char(c + 2)
        == 'a' && cmd.get_char(c + 3) == 'r' && cmd.get_char(c + 4) == 't' {
        proof {
            assert(arg =~= start_word());
        }
        return FocusCommand::Start;
    }
    if d - c == 4 && cmd.get_char(c) == 's' && cmd.get_char(c + 1) == 't' && cmd.get_char(c + 2)
        == 'o' && cmd.get_char(c + 3) == 'p' {
        proof {
            assert(arg =~= stop_word());
        }
        return FocusCommand::Stop;
    }
    proof {
        if arg == start_word() {
            assert(arg.len() == 5);
            assert(d - c == 5);
            assert(forall|k: int| 0 <= k < 5 ==> #[trigger] arg[k] == cmd@[c + k]);
            assert(arg[0] == 's' && arg[1] == 't' && arg[2] == 'a' && arg[3] == 'r' && arg[4]
                == 't');
            assert(false);
        }
        if arg == stop_word() {
            assert(arg.len() == 4);
            assert(d - c == 4);
            assert(forall|k: int| 0 <= k < 4 ==> #[trigger] arg[k] == cmd@[c + k]);
            assert(arg[0] == 's' && arg[1] == 't' && arg[2] == 'o' && arg[3] == 'p');
            assert(false);
        }
    }
    FocusCommand::Unknown
}

} // verus!

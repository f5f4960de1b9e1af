use vstd::prelude::*;
use vstd::utf8::{encode_scalar, encode_utf8};

verus! {

/// Logical key of a key press, reduced to the keys the dashboard reacts to.
/// Any other key is carried as `Other` and encodes to nothing.
#[derive(Debug, Clone, Copy, PartialEq, Eq, Structural)]
pub enum KeyCode {
    Enter,
    Tab,
    Backspace,
    Esc,
    Up,
    Down,
    Right,
    Left,
    Char(char),
    Other,
}

/// One key press: the logical key, whether Control was held, and whether no
/// modifier at all was held.
#[derive(Debug, Clone, Copy, PartialEq, Eq, Structural)]
pub struct KeyPress {
    pub code: KeyCode,
    pub ctrl: bool,
    pub no_modifiers: bool,
}

impl KeyPress {
    pub fn plain(code: KeyCode) -> (r: KeyPress)
        ensures
            r == (KeyPress { code, ctrl: false, no_modifiers: true }),
    {
        KeyPress { code, ctrl: false, no_modifiers: true }
    }

    pub fn with_ctrl(code: KeyCode) -> (r: KeyPress)
        ensures
            r == (KeyPress { code, ctrl: true, no_modifiers: false }),
    {
        KeyPress { code, ctrl: true, no_modifiers: false }
    }
}

/// The control code sent for Control + `ch`: the ASCII uppercase of `ch`
/// reduced to its low five bits, the standard control-code mapping.
pub open spec fn spec_ctrl_code(ch: char) -> u8 {
    let u = ch as u32;
    let up = if 97 <= u <= 122 {
        (u - 32) as u32
    } else {
        u
    };
    (up % 32) as u8
}

/// The byte sequence a key press is encoded to before being written to the
/// embedded terminal, or `None` for a key with no defined encoding.
pub open spec fn spec_key_bytes(key: KeyPress) -> Option<Seq<u8>> {
    match key.code {
        KeyCode::Enter => Some(seq![13u8]),
        KeyCode::Tab => Some(seq![9u8]),
        KeyCode::Backspace => Some(seq![0x7fu8]),
        KeyCode::Esc => Some(seq![0x1bu8]),
        KeyCode::Up => Some(seq![0x1bu8, 0x5bu8, 0x41u8]),
        KeyCode::Down => Some(seq![0x1bu8, 0x5bu8, 0x42u8]),
        KeyCode::Right => Some(seq![0x1bu8, 0x5bu8, 0x43u8]),
        KeyCode::Left => Some(seq![0x1bu8, 0x5bu8, 0x44u8]),
        KeyCode::Char(ch) => if key.ctrl {
            Some(seq![spec_ctrl_code(ch)])
        } else {
            Some(encode_utf8(seq![ch]))
        },
        KeyCode::Other => None,
    }
}

pub fn ctrl_code(ch: char) -> (r: u8)
    ensures
        r == spec_ctrl_code(ch),
{
    let u = ch as u32;
    let up: u32 = if 97 <= u && u <= 122 {
        u - 32
    } else {
        u
    };
    (up % 32) as u8
}

/// UTF-8 encoding of a single character, as four explicit width cases.
pub fn utf8_char_bytes(c: char) -> (r: Vec<u8>)
    ensures
        r@ == encode_utf8(seq![c]),
{
    proof {
        assert(encode_utf8(seq![c]) =~= encode_scalar(c as u32) + encode_utf8(
            seq![c].drop_first(),
        ));
        assert(seq![c].drop_first() =~= Seq::<char>::empty());
        assert(encode_utf8(seq![c]) =~= encode_scalar(c as u32));
    }
    let u = c as u32;
    let mut r: Vec<u8> = Vec::new();
    if u <= 0x7F {
        let b0: u32 = u & 0x7F;
        assert(b0 < 256) by (bit_vector)
            requires
                b0 == u & 0x7F,
        ;
        r.push(b0 as u8);
        assert(r@ =~= encode_scalar(c as u32));
    } else if u <= 0x7FF {
        let b0: u32 = (u >> 6) & 0x1F;
        let b1: u32 = u & 0x3F;
        assert(b0 < 256 && b1 < 256) by (bit_vector)
            requires
                b0 == (u >> 6) & 0x1F && b1 == u & 0x3F,
        ;
        r.push(0xC0u8 | (b0 as u8));
        r.push(0x80u8 | (b1 as u8));
        assert(r@ =~= encode_scalar(c as u32));
    } else if u <= 0xFFFF {
        let b0: u32 = (u >> 12) & 0x0F;
        let b1: u32 = (u >> 6) & 0x3F;
        let b2: u32 = u & 0x3F;
        assert(b0 < 256 && b1 < 256 && b2 < 256) by (bit_vector)
            requires
                b0 == (u >> 12) & 0x0F && b1 == (u >> 6) & 0x3F && b2 == u & 0x3F,
        ;
        r.push(0xE0u8 | (b0 as u8));
        r.push(0x80u8 | (b1 as u8));
        r.push(0x80u8 | (b2 as u8));
        assert(r@ =~= encode_scalar(c as u32));
    } else {
        let b0: u32 = (u >> 18) & 0x7;
        let b1: u32 = (u >> 12) & 0x3F;
        let b2: u32 = (u >> 6) & 0x3F;
        let b3: u32 = u & 0x3F;
        assert(b0 < 256 && b1 < 256 && b2 < 256 && b3 < 256) by (bit_vector)
            requires
                b0 == (u >> 18) & 0x7 && b1 == (u >> 12) & 0x3F && b2 == (u >> 6) & 0x3F && b3 == u
                    & 0x3F,
        ;
        r.push(0xF0u8 | (b0 as u8));
        r.push(0x80u8 | (b1 as u8));
        r.push(0x80u8 | (b2 as u8));
        r.push(0x80u8 | (b3 as u8));
        assert(r@ =~= encode_scalar(c as u32));
    }
    r
}

/// Encodes a key press for the embedded terminal, exactly as the routing
/// contract requires: carriage return for Enter, tab, delete for Backspace,
/// escape, ANSI arrow sequences, control codes for Control + character, the
/// UTF-8 bytes of a bare character, and nothing for any other key.
pub fn key_to_bytes(key: KeyPress) -> (r: Option<Vec<u8>>)
    ensures
        match r {
            Some(v) => spec_key_bytes(key) == Some(v@),
            None => spec_key_bytes(key) is None,
        },
{
    match key.code {
        KeyCode::Enter => {
            let mut v: Vec<u8> = Vec::new();
            v.push(13u8);
            assert(v@ =~= seq![13u8]);
            Some(v)
        },
        KeyCode::Tab => {
            let mut v: Vec<u8> = Vec::new();
            v.push(9u8);
            assert(v@ =~= seq![9u8]);
            Some(v)
        },
        KeyCode::Backspace => {
            let mut v: Vec<u8> = Vec::new();
            v.push(0x7fu8);
            assert(v@ =~= seq![0x7fu8]);
            Some(v)
        },
        KeyCode::Esc => {
            let mut v: Vec<u8> = Vec::new();
            v.push(0x1bu8);
            assert(v@ =~= seq![0x1bu8]);
            Some(v)
        },
        KeyCode::Up => Some(arrow_sequence(0x41u8)),
        KeyCode::Down => Some(arrow_sequence(0x42u8)),
        KeyCode::Right => Some(arrow_sequence(0x43u8)),
        KeyCode::Left => Some(arrow_sequence(0x44u8)),
        KeyCode::Char(ch) => {
            if key.ctrl {
                let mut v: Vec<u8> = Vec::new();
                v.push(ctrl_code(ch));
                assert(v@ =~= seq![spec_ctrl_code(ch)]);
                Some(v)
            } else {
                Some(utf8_char_bytes(ch))
            }
        },
        KeyCode::Other => None,
    }
}

fn arrow_sequence(last: u8) -> (r: Vec<u8>)
    ensures
        r@ == seq![0x1bu8, 0x5bu8, last],
{
    let mut v: Vec<u8> = Vec::new();
    v.push(0x1bu8);
    v.push(0x5bu8);
    v.push(last);
    assert(v@ =~= seq![0x1bu8, 0x5bu8, last]);
    v
}

/// A character a user can type into the command line: anything but a Unicode
/// control character.
pub open spec fn spec_is_printable(ch: char) -> bool {
    let u = ch as u32;
    !(u < 0x20 || (0x7f <= u <= 0x9f))
}

pub fn is_printable(ch: char) -> (r: bool)
    ensures
        r == spec_is_printable(ch),
{
    let u = ch as u32;
    !(u < 0x20 || (0x7f <= u && u <= 0x9f))
}

} // verus!

use augustinus::{KeyCode, KeyPress};
use augustinus::keys::key_to_bytes;

#[test]
fn control_characters_map_to_control_codes() {
    let a = key_to_bytes(KeyPress::with_ctrl(KeyCode::Char('a'))).unwrap();
    assert_eq!(a, vec![0x01]);
    let c = key_to_bytes(KeyPress::with_ctrl(KeyCode::Char('c'))).unwrap();
    assert_eq!(c, vec![0x03]);
    let z = key_to_bytes(KeyPress::with_ctrl(KeyCode::Char('Z'))).unwrap();
    assert_eq!(z, vec![0x1a]);
}

#[test]
fn special_keys_have_fixed_encodings() {
    assert_eq!(key_to_bytes(KeyPress::plain(KeyCode::Enter)).unwrap(), vec![0x0d]);
    assert_eq!(key_to_bytes(KeyPress::plain(KeyCode::Tab)).unwrap(), vec![0x09]);
    assert_eq!(key_to_bytes(KeyPress::plain(KeyCode::Backspace)).unwrap(), vec![0x7f]);
    assert_eq!(key_to_bytes(KeyPress::plain(KeyCode::Esc)).unwrap(), vec![0x1b]);
}

#[test]
fn arrows_encode_as_ansi_sequences() {
    assert_eq!(key_to_bytes(KeyPress::plain(KeyCode::Up)).unwrap(), vec![0x1b, 0x5b, 0x41]);
    assert_eq!(key_to_bytes(KeyPress::plain(KeyCode::Down)).unwrap(), vec![0x1b, 0x5b, 0x42]);
    assert_eq!(key_to_bytes(KeyPress::plain(KeyCode::Right)).unwrap(), vec![0x1b, 0x5b, 0x43]);
    assert_eq!(key_to_bytes(KeyPress::plain(KeyCode::Left)).unwrap(), vec![0x1b, 0x5b, 0x44]);
}

#[test]
fn plain_characters_encode_as_utf8() {
    assert_eq!(key_to_bytes(KeyPress::plain(KeyCode::Char('A'))).unwrap(), vec![0x41]);
    assert_eq!(key_to_bytes(KeyPress::plain(KeyCode::Char('é'))).unwrap(), vec![0xc3, 0xa9]);
    assert_eq!(key_to_bytes(KeyPress::plain(KeyCode::Char('€'))).unwrap(), vec![0xe2, 0x82, 0xac]);
    assert_eq!(
        key_to_bytes(KeyPress::plain(KeyCode::Char('𝄞'))).unwrap(),
        vec![0xf0, 0x9d, 0x84, 0x9e]
    );
}

#[test]
fn undefined_keys_encode_to_nothing() {
    assert!(key_to_bytes(KeyPress::plain(KeyCode::Other)).is_none());
}

use nae::color::{channels_to_hex, hex_to_channels, hex_to_string};
use nae::input::{keyboard_code, mouse_button_to_nae, str_eq, KeyCode, MouseButton};

#[test]
fn hex_to_string_matches_alternate_upper_hex() {
    for hex in [0u32, 1, 0xF, 0x10, 0xFF, 0x000000ff, 0x12345678, 0xDEADBEEF, u32::MAX] {
        assert_eq!(hex_to_string(hex), format!("{:#X}", hex));
    }
}

#[test]
fn hex_to_string_examples() {
    assert_eq!(hex_to_string(0), "0x0");
    assert_eq!(hex_to_string(0xff), "0xFF");
    assert_eq!(hex_to_string(0xffffffff), "0xFFFFFFFF");
    assert_eq!(hex_to_string(0x00a0b0c0), "0xA0B0C0");
}

#[test]
fn keyboard_code_known_codes() {
    assert_eq!(keyboard_code("Digit1"), Some(KeyCode::Key1));
    assert_eq!(keyboard_code("KeyA"), Some(KeyCode::A));
    assert_eq!(keyboard_code("KeyZ"), Some(KeyCode::Z));
    assert_eq!(keyboard_code("Escape"), Some(KeyCode::Escape));
    assert_eq!(keyboard_code("F24"), Some(KeyCode::F24));
    assert_eq!(keyboard_code("PrintScreen"), Some(KeyCode::Snapshot));
    assert_eq!(keyboard_code("ArrowLeft"), Some(KeyCode::Left));
    assert_eq!(keyboard_code("Enter"), Some(KeyCode::Return));
    assert_eq!(keyboard_code("Quote"), Some(KeyCode::Apostrophe));
    assert_eq!(keyboard_code("MetaRight"), Some(KeyCode::RWin));
    assert_eq!(keyboard_code("Yen"), Some(KeyCode::Yen));
}

#[test]
fn keyboard_code_unknown_codes() {
    assert_eq!(keyboard_code(""), None);
    assert_eq!(keyboard_code("KeyAA"), None);
    assert_eq!(keyboard_code("keya"), None);
    assert_eq!(keyboard_code("Copy"), None);
}

#[test]
fn str_eq_compares_characters() {
    assert!(str_eq("abc", "abc"));
    assert!(!str_eq("abc", "abd"));
    assert!(!str_eq("abc", "ab"));
    assert!(str_eq("", ""));
    assert!(str_eq("ñandú", "ñandú"));
}

#[test]
fn mouse_button_numbers() {
    assert_eq!(mouse_button_to_nae(0), MouseButton::Left);
    assert_eq!(mouse_button_to_nae(1), MouseButton::Middle);
    assert_eq!(mouse_button_to_nae(2), MouseButton::Right);
    assert_eq!(mouse_button_to_nae(3), MouseButton::Other(3));
    assert_eq!(mouse_button_to_nae(300), MouseButton::Other(44));
    assert_eq!(mouse_button_to_nae(-1), MouseButton::Other(255));
}

#[test]
fn color_channels() {
    assert_eq!(hex_to_channels(0x11223344), [0x11, 0x22, 0x33, 0x44]);
    assert_eq!(hex_to_channels(0x000000ff), [0, 0, 0, 0xff]);
    assert_eq!(channels_to_hex(0x11, 0x22, 0x33, 0x44), 0x11223344);
    assert_eq!(channels_to_hex(255, 255, 255, 255), u32::MAX);
    let c = hex_to_channels(0xdeadbeef);
    assert_eq!(channels_to_hex(c[0], c[1], c[2], c[3]), 0xdeadbeef);
    // A value above 255 spills into the next channel, as shifting and adding does.
    assert_eq!(channels_to_hex(0, 0, 1, 256), 0x200);
}

#[test]
fn hex_to_rgba_string_examples() {
    assert_eq!(nae::color::hex_to_rgba_string(0x000000ff), "#000000ff");
    assert_eq!(nae::color::hex_to_rgba_string(0), "#00000000");
    assert_eq!(nae::color::hex_to_rgba_string(0xA0B1C2D3), "#a0b1c2d3");
    for hex in [1u32, 0xdeadbeef, 0xffffffff, 0x12345678] {
        assert_eq!(nae::color::hex_to_rgba_string(hex), format!("#{:08x}", hex));
    }
}

#[test]
fn hex_to_string_parses_back() {
    for hex in [0u32, 1, 0xf, 0x10, 0xabc, 0xffffffff] {
        let s = hex_to_string(hex);
        assert!(s.starts_with("0x"));
        assert_eq!(u32::from_str_radix(&s[2..], 16), Ok(hex));
    }
}

#[test]
fn keyboard_codes_are_distinct() {
    let codes = [
        "Digit1", "KeyA", "KeyZ", "Escape", "F1", "F24", "ArrowLeft", "Numpad0", "Space",
        "Enter", "Tab", "ShiftLeft", "ShiftRight", "Backquote", "Minus", "Equal",
    ];
    let keys: Vec<KeyCode> = codes.iter().map(|c| keyboard_code(c).unwrap()).collect();
    for i in 0..keys.len() {
        assert_ne!(keys[i], KeyCode::Unknown);
        for j in 0..i {
            assert_ne!(keys[i], keys[j]);
        }
    }
    assert_eq!(keyboard_code("keya"), None);
}

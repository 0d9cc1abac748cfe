use xkbcommon::enums::{KeyDirection, LogLevel};
use xkbcommon::flags::{
    CONTEXT_NO_DEFAULT_INCLUDES, CONTEXT_NO_ENVIRONMENT_NAMES, STATE_LAYOUT_DEPRESSED,
    STATE_LAYOUT_EFFECTIVE, STATE_LAYOUT_LATCHED, STATE_LAYOUT_LOCKED, STATE_LEDS,
    STATE_MATCH_ALL, STATE_MATCH_ANY, STATE_MATCH_NON_EXCLUSIVE, STATE_MODS_DEPRESSED,
    STATE_MODS_EFFECTIVE, STATE_MODS_LATCHED, STATE_MODS_LOCKED,
};
use xkbcommon::keycode::{keycode_is_legal_ext, keycode_is_legal_x11, KEYCODE_INVALID, KEYCODE_MAX};

#[test]
fn extended_keycode_range() {
    assert!(keycode_is_legal_ext(0));
    assert!(keycode_is_legal_ext(8));
    assert!(keycode_is_legal_ext(256));
    assert!(keycode_is_legal_ext(KEYCODE_MAX));
    assert!(!keycode_is_legal_ext(KEYCODE_INVALID));
    assert!(!keycode_is_legal_ext(0xffffffff));
}

#[test]
fn x11_keycode_range() {
    assert!(!keycode_is_legal_x11(0));
    assert!(!keycode_is_legal_x11(7));
    assert!(keycode_is_legal_x11(8));
    assert!(keycode_is_legal_x11(38));
    assert!(keycode_is_legal_x11(255));
    assert!(!keycode_is_legal_x11(256));
    assert!(!keycode_is_legal_x11(KEYCODE_INVALID));
}

#[test]
fn x11_keycodes_are_extended_keycodes() {
    for key in 0u32..1024 {
        if keycode_is_legal_x11(key) {
            assert!(keycode_is_legal_ext(key));
        }
    }
}

#[test]
fn log_level_numbers() {
    assert_eq!(LogLevel::Critical.to_raw(), 10);
    assert_eq!(LogLevel::Error.to_raw(), 20);
    assert_eq!(LogLevel::Warning.to_raw(), 30);
    assert_eq!(LogLevel::Info.to_raw(), 40);
    assert_eq!(LogLevel::Debug.to_raw(), 50);
}

#[test]
fn log_level_round_trip() {
    for level in [LogLevel::Critical, LogLevel::Error, LogLevel::Warning, LogLevel::Info, LogLevel::Debug] {
        assert_eq!(LogLevel::from_raw(level.to_raw()), Some(level));
    }
}

#[test]
fn log_level_unknown_numbers() {
    assert_eq!(LogLevel::from_raw(0), None);
    assert_eq!(LogLevel::from_raw(15), None);
    assert_eq!(LogLevel::from_raw(-10), None);
    assert_eq!(LogLevel::from_raw(60), None);
    assert_eq!(LogLevel::from_raw(30), Some(LogLevel::Warning));
}

#[test]
fn key_direction_numbers() {
    assert_eq!(KeyDirection::Up.to_raw(), 0);
    assert_eq!(KeyDirection::Down.to_raw(), 1);
}

#[test]
fn state_components_are_distinct_bits() {
    let all = [
        STATE_MODS_DEPRESSED,
        STATE_MODS_LATCHED,
        STATE_MODS_LOCKED,
        STATE_MODS_EFFECTIVE,
        STATE_LAYOUT_DEPRESSED,
        STATE_LAYOUT_LATCHED,
        STATE_LAYOUT_LOCKED,
        STATE_LAYOUT_EFFECTIVE,
        STATE_LEDS,
    ];
    for (i, a) in all.iter().enumerate() {
        assert_eq!(*a, 1u32 << i);
        for (j, b) in all.iter().enumerate() {
            if i != j {
                assert_eq!(a & b, 0);
            }
        }
    }
    let mask = STATE_MODS_DEPRESSED | STATE_MODS_LATCHED;
    assert_ne!(mask & STATE_MODS_DEPRESSED, 0);
    assert_ne!(mask & STATE_MODS_LATCHED, 0);
    assert_eq!(mask & STATE_MODS_LOCKED, 0);
}

#[test]
fn match_and_context_flags_are_disjoint() {
    assert_eq!(STATE_MATCH_NON_EXCLUSIVE & STATE_MATCH_ANY, 0);
    assert_eq!(STATE_MATCH_NON_EXCLUSIVE & STATE_MATCH_ALL, 0);
    assert_eq!(STATE_MATCH_ANY & STATE_MATCH_ALL, 0);
    assert_eq!(CONTEXT_NO_DEFAULT_INCLUDES & CONTEXT_NO_ENVIRONMENT_NAMES, 0);
}

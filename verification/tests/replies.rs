use xkbcommon::cstring::{c_string, c_string_unchecked, InteriorNul, RuleField, RuleNameError, RuleNames};
use xkbcommon::cursor::IndexCursor;
use xkbcommon::reply::{status_is_yes, text_from_buffer, text_from_buffer_with_nul};

#[test]
fn status_codes() {
    assert!(status_is_yes(1));
    assert!(!status_is_yes(0));
    assert!(!status_is_yes(-1));
    assert!(!status_is_yes(2));
}

#[test]
fn text_that_fits() {
    let mut buf = [0u8; 64];
    buf[..6].copy_from_slice(b"Return");
    assert_eq!(text_from_buffer(&buf, 6), b"Return".to_vec());
}

#[test]
fn text_that_was_truncated() {
    let buf = *b"abcdefg\0";
    // the full text had 20 bytes; the buffer kept 7 of them and the NUL
    assert_eq!(text_from_buffer(&buf, 20), b"abcdefg".to_vec());
    assert_eq!(text_from_buffer(&buf, 8), b"abcdefg".to_vec());
}

#[test]
fn text_error_or_nothing() {
    let buf = *b"xyz\0";
    assert_eq!(text_from_buffer(&buf, -1), Vec::<u8>::new());
    assert_eq!(text_from_buffer(&buf, 0), Vec::<u8>::new());
}

#[test]
fn text_counting_the_terminator() {
    let buf = [0xc3u8, 0xa9, 0, 0, 0, 0, 0, 0];
    // U+00E9 takes two bytes; the report counts the NUL as well
    assert_eq!(text_from_buffer_with_nul(&buf, 3), vec![0xc3, 0xa9]);
    assert_eq!(text_from_buffer_with_nul(&buf, 0), Vec::<u8>::new());
    assert_eq!(text_from_buffer_with_nul(&buf, 1), Vec::<u8>::new());
    assert_eq!(text_from_buffer_with_nul(&buf, -1), Vec::<u8>::new());
    assert_eq!(text_from_buffer_with_nul(&buf, 100).len(), 7);
}

#[test]
fn c_string_of_plain_text() {
    assert_eq!(c_string("Shift"), Ok(b"Shift\0".to_vec()));
    assert_eq!(c_string(""), Ok(vec![0u8]));
}

#[test]
fn c_string_with_interior_nul() {
    assert_eq!(c_string("ab\0cd\0"), Err(InteriorNul { position: 2 }));
    assert_eq!(c_string("\0"), Err(InteriorNul { position: 0 }));
}

#[test]
fn c_string_round_trip() {
    let v = c_string("Mod4").unwrap();
    assert_eq!(v.last(), Some(&0u8));
    assert_eq!(&v[..v.len() - 1], b"Mod4");
    assert_eq!(v.iter().filter(|b| **b == 0).count(), 1);
}

#[test]
fn c_string_unchecked_keeps_everything() {
    assert_eq!(c_string_unchecked("/usr"), b"/usr\0".to_vec());
    assert_eq!(c_string_unchecked("a\0b"), b"a\0b\0".to_vec());
}

#[test]
fn rule_names_ok() {
    let names = RuleNames::new("evdev", "pc105", "us", "intl", "").unwrap();
    assert_eq!(names.rules(), b"evdev\0");
    assert_eq!(names.model(), b"pc105\0");
    assert_eq!(names.layout(), b"us\0");
    assert_eq!(names.variant(), b"intl\0");
    assert_eq!(names.options(), b"\0");
}

#[test]
fn rule_names_first_bad_field() {
    assert_eq!(
        RuleNames::new("evdev", "pc\0105", "u\0s", "", "").err(),
        Some(RuleNameError { field: RuleField::Model, position: 2 })
    );
    assert_eq!(
        RuleNames::new("\0", "", "", "", "").err(),
        Some(RuleNameError { field: RuleField::Rules, position: 0 })
    );
    assert_eq!(
        RuleNames::new("", "", "", "", "grp:\0").err(),
        Some(RuleNameError { field: RuleField::Options, position: 4 })
    );
    assert_eq!(
        RuleNames::new("", "", "us", "x\0", "").err(),
        Some(RuleNameError { field: RuleField::Variant, position: 1 })
    );
    assert_eq!(
        RuleNames::new("", "", "\0", "", "").err(),
        Some(RuleNameError { field: RuleField::Layout, position: 0 })
    );
}

#[test]
fn cursor_visits_every_index_once() {
    let mut c = IndexCursor::new(3);
    assert_eq!(c.next_index(), Some(0));
    assert_eq!(c.next_index(), Some(1));
    assert_eq!(c.next_index(), Some(2));
    assert_eq!(c.next_index(), None);
    assert_eq!(c.next_index(), None);
}

#[test]
fn cursor_over_empty_list() {
    let mut c = IndexCursor::new(0);
    assert_eq!(c.next_index(), None);
    assert_eq!(c.next_index(), None);
}

use coolprop::{
    c_buf_to_string, check_c_string, component_count, contains_text, first_nul, is_white_space,
    normalize_fluid_list, Error,
};

fn c_bytes(s: &[u8]) -> Vec<i8> {
    s.iter().map(|&b| b as i8).collect()
}

#[test]
fn first_nul_finds_the_first() {
    assert_eq!(first_nul("abc"), None);
    assert_eq!(first_nul("a\0b\0"), Some(1));
    assert_eq!(first_nul(""), None);
}

#[test]
fn check_c_string_reports_label_and_position() {
    assert!(check_c_string("fluid", "Water").is_ok());
    match check_c_string("fluid", "Wa\0ter") {
        Err(Error::EmbeddedNul { label, position }) => {
            assert_eq!(label, "fluid");
            assert_eq!(position, 2);
        }
        other => panic!("unexpected result {other:?}"),
    }
}

#[test]
fn c_buf_to_string_stops_at_nul() {
    assert_eq!(c_buf_to_string(&c_bytes(b"abc\0xyz")), "abc");
    assert_eq!(c_buf_to_string(&c_bytes(b"abc")), "abc");
    assert_eq!(c_buf_to_string(&c_bytes(b"\0abc")), "");
}

#[test]
fn c_buf_to_string_replaces_invalid_utf8() {
    assert_eq!(c_buf_to_string(&c_bytes(&[b'a', 0xFF, b'b', 0])), "a\u{FFFD}b");
    assert_eq!(c_buf_to_string(&c_bytes("é".as_bytes())), "é");
}

#[test]
fn contains_text_finds_runs() {
    assert!(contains_text("output buffer too small", "buffer"));
    assert!(contains_text("abc", ""));
    assert!(!contains_text("abc", "abcd"));
    assert!(!contains_text("Length of arr", "Length of array"));
}

#[test]
fn normalize_fluid_list_replaces_commas() {
    assert_eq!(normalize_fluid_list("R32,R125"), "R32&R125");
    assert_eq!(normalize_fluid_list(",a,,"), "&a&&");
    assert_eq!(normalize_fluid_list("Water"), "Water");
}

#[test]
fn component_count_ignores_blank_segments() {
    assert_eq!(component_count("R32&R125"), 2);
    assert_eq!(component_count("R32& &R125&"), 2);
    assert_eq!(component_count(""), 1);
    assert_eq!(component_count("Water"), 1);
    assert_eq!(component_count("a\u{3000}&\u{2003}&b"), 2);
}

#[test]
fn is_white_space_matches_std() {
    for c in ['\t', '\n', ' ', '\u{85}', '\u{A0}', '\u{2000}', '\u{3000}', 'a', '&', '\0', 'é'] {
        assert_eq!(is_white_space(c), c.is_whitespace(), "{c:?}");
    }
    for u in 0..0x3100u32 {
        if let Some(c) = char::from_u32(u) {
            assert_eq!(is_white_space(c), c.is_whitespace(), "{u:#x}");
        }
    }
}

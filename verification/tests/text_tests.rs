use zaprett::cstr::str_to_c_array;
use zaprett::text::{chars_of, is_whitespace, split_whitespace, string_from_range};

#[test]
fn is_whitespace_agrees_with_char_is_whitespace() {
    for u in 0u32..0x110000 {
        if let Some(c) = char::from_u32(u) {
            assert_eq!(is_whitespace(c), c.is_whitespace(), "code point {:#x}", u);
        }
    }
}

#[test]
fn split_whitespace_on_ascii_separators() {
    let words = split_whitespace("  --qnum=200\t--uid=0:0\n -v  ");
    assert_eq!(words, vec!["--qnum=200", "--uid=0:0", "-v"]);
}

#[test]
fn split_whitespace_on_unicode_separators() {
    let words = split_whitespace("a\u{3000}b\u{a0}c\u{2028}d");
    assert_eq!(words, vec!["a", "b", "c", "d"]);
}

#[test]
fn split_whitespace_matches_std() {
    let samples = ["", "   ", "one", " two  words ", "x\u{85}y\u{1680}z", "tab\tand\r\nnewline"];
    for s in samples {
        let expected: Vec<String> = s.split_whitespace().map(String::from).collect();
        assert_eq!(split_whitespace(s), expected, "text {:?}", s);
    }
}

#[test]
fn chars_and_ranges() {
    let chars = chars_of("héllo");
    assert_eq!(chars, vec!['h', 'é', 'l', 'l', 'o']);
    assert_eq!(string_from_range(&chars, 1, 4), "éll");
}

#[test]
fn c_array_of_short_text_is_nul_padded() {
    let a: [u8; 4] = str_to_c_array::<4>("ab");
    assert_eq!(a, [b'a', b'b', 0, 0]);
}

#[test]
fn c_array_of_exact_fit_keeps_terminator() {
    let a: [u8; 4] = str_to_c_array::<4>("abc");
    assert_eq!(a, [b'a', b'b', b'c', 0]);
}

#[test]
fn c_array_of_long_text_is_cut_without_terminator() {
    let a: [u8; 4] = str_to_c_array::<4>("abcdef");
    assert_eq!(a, [b'a', b'b', b'c', b'd']);
}

#[test]
fn c_array_of_text_with_nul_is_all_zero() {
    let a: [u8; 4] = str_to_c_array::<4>("a\0b");
    assert_eq!(a, [0, 0, 0, 0]);
}

#[test]
fn c_array_holds_utf8_bytes() {
    let a: [u8; 4] = str_to_c_array::<4>("é");
    assert_eq!(a, [0xc3, 0xa9, 0, 0]);
}

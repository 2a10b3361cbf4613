use pulse_client::encode::{encode_path, encode_query, encode_segment};
use pulse_client::json::unwrap_list;
use pulse_client::text::{
    chars_of, decimal_text, hexadecimal_text, is_blank, is_white_space, read_u32, same_text,
    slice_chars, string_of, trimmed,
};
use pulse_client::Value;

#[test]
fn white_space_is_that_of_unicode() {
    for n in 0..=0x10ffff_u32 {
        if let Some(c) = char::from_u32(n) {
            assert_eq!(is_white_space(c), c.is_whitespace(), "U+{n:04X}");
        }
    }
}

#[test]
fn blank_is_nothing_but_white_space() {
    assert!(is_blank(""));
    assert!(is_blank(" \t\r\n\u{3000}"));
    assert!(!is_blank("  x "));
}

#[test]
fn trimming_takes_white_space_off_both_ends() {
    for text in ["", " ", "a", " a b ", "\u{2003}x\u{85}", "\n\n"] {
        assert_eq!(string_of(&trimmed(text)), text.trim());
    }
}

#[test]
fn characters_of_a_text() {
    let cs = chars_of("aé😀");
    assert_eq!(cs, vec!['a', 'é', '😀']);
    assert_eq!(string_of(&cs), "aé😀");
    assert_eq!(slice_chars(&cs, 1, 3), vec!['é', '😀']);
    assert!(same_text("aé", "aé"));
    assert!(!same_text("aé", "ae"));
    assert!(!same_text("a", "aa"));
}

#[test]
fn decimal_numerals() {
    for n in [0, 7, 10, 99, 100, 4294967295, u64::MAX] {
        assert_eq!(decimal_text(n), n.to_string());
    }
}

#[test]
fn hexadecimal_numerals() {
    for n in [0, 9, 10, 15, 16, 255, 4096, 1_716_000_000_000, u128::MAX] {
        assert_eq!(hexadecimal_text(n), format!("{n:x}"));
    }
}

#[test]
fn numerals_are_read_as_std_reads_them() {
    for text in [
        "", "0", "7", "007", "+1", "+", "-1", "1 ", "1_0", "4294967295", "4294967296",
        "99999999999999999999", "00000000000000000001", "٣", "++1", "1+",
    ] {
        assert_eq!(read_u32(&chars_of(text)), text.parse::<u32>().ok(), "{text}");
    }
    for n in [0, 9, 65535, u32::MAX] {
        assert_eq!(read_u32(&chars_of(&n.to_string())), Some(n));
    }
}

#[test]
fn segments_are_percent_encoded() {
    assert_eq!(encode_segment("user:123/orders"), "user%3A123%2Forders");
    assert_eq!(encode_path("a b+c"), "a%20b%2Bc");
    assert_eq!(encode_query("a=b&c"), "a%3Db%26c");
    assert_eq!(encode_segment("é"), "%C3%A9");
    assert_eq!(encode_segment("AZaz09-_.~"), "AZaz09-_.~");
    assert_eq!(encode_segment("%"), "%25");
    assert_eq!(encode_segment("\u{0}\u{7f}"), "%00%7F");
    assert_eq!(encode_segment(""), "");
}

#[test]
fn encoded_segments_stay_one_segment() {
    for n in 0..=255u8 {
        let encoded = encode_segment(&(n as char).to_string());
        assert!(encoded
            .chars()
            .all(|c| c.is_ascii_alphanumeric() || "-_.~%".contains(c)));
    }
}

#[test]
fn lists_are_unwrapped() {
    let doc: Value = serde_json::from_str(r#"{"a": [1, "x", null], "b": {}}"#).unwrap();
    assert_eq!(
        unwrap_list(&doc, "a"),
        vec![Value::from(1), Value::from("x"), Value::Null]
    );
    assert!(unwrap_list(&doc, "b").is_empty());
    assert!(unwrap_list(&doc, "c").is_empty());
    assert!(unwrap_list(&Value::Null, "a").is_empty());
}

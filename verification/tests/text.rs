use azure_cognitive_speech_services::json::{member_string, member_u64};
use azure_cognitive_speech_services::text::{chars_of, is_blank, string_of, trim_bounds};

fn json(text: &str) -> simd_json::OwnedValue {
    let mut bytes = text.as_bytes().to_vec();
    simd_json::to_owned_value(&mut bytes).unwrap()
}

#[test]
fn characters_of_a_string_and_back() {
    let chars = chars_of("añ→z");
    assert_eq!(chars, vec!['a', 'ñ', '→', 'z']);
    assert_eq!(string_of(&chars, 0, 4), "añ→z");
    assert_eq!(string_of(&chars, 1, 3), "ñ→");
    assert_eq!(string_of(&chars, 2, 2), "");
    assert!(chars_of("").is_empty());
}

#[test]
fn trimming_gives_the_bounds_of_what_is_left() {
    let chars = chars_of("ab \t x y \r\n cd");
    assert_eq!(trim_bounds(&chars, 2, 12), (5, 8));
    assert_eq!(trim_bounds(&chars, 0, chars.len()), (0, chars.len()));
    assert_eq!(trim_bounds(&chars, 2, 5), (5, 5));
    assert_eq!(trim_bounds(&chars, 3, 3), (3, 3));
    let wide = chars_of("\u{2003}\u{a0}x\u{3000}");
    assert_eq!(trim_bounds(&wide, 0, 4), (2, 3));
    let marks = chars_of("\u{200b}x");
    assert_eq!(trim_bounds(&marks, 0, 2), (0, 2));
}

#[test]
fn blank_means_nothing_but_whitespace() {
    let chars = chars_of(" \t\r\n\u{b}\u{c}\u{85}x ");
    assert!(is_blank(&chars, 0, 7));
    assert!(!is_blank(&chars, 0, 8));
    assert!(is_blank(&chars, 8, 9));
    assert!(is_blank(&chars, 4, 4));
    assert!(!is_blank(&chars_of("\u{1}"), 0, 1));
}

#[test]
fn members_of_a_document() {
    let document = json("{\"s\":\"ä\\n\",\"n\":18446744073709551615,\"i\":-1,\"f\":1.5,\"o\":{},\"z\":0}");
    assert_eq!(member_string(&document, "s").as_deref(), Some("ä\n"));
    assert_eq!(member_string(&document, "n"), None);
    assert_eq!(member_string(&document, "missing"), None);
    assert_eq!(member_u64(&document, "n"), Some(u64::MAX));
    assert_eq!(member_u64(&document, "z"), Some(0));
    assert_eq!(member_u64(&document, "i"), None);
    assert_eq!(member_u64(&document, "f"), None);
    assert_eq!(member_u64(&document, "s"), None);
    assert_eq!(member_u64(&document, "o"), None);
    assert_eq!(member_u64(&json("[1]"), "n"), None);
}

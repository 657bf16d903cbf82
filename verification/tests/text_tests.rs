use recipebook_api::text::{clean_fences, trim_str, u16_to_string};

#[test]
fn trim_removes_outer_whitespace_only() {
    assert_eq!(trim_str("  a b  "), "a b");
    assert_eq!(trim_str("\n\t x \r\n"), "x");
    assert_eq!(trim_str("inner"), "inner");
    assert_eq!(trim_str("   "), "");
    assert_eq!(trim_str(""), "");
}

#[test]
fn clean_strips_tagged_fence() {
    assert_eq!(clean_fences("```json\n{\"a\":1}\n```"), "{\"a\":1}");
}

#[test]
fn clean_strips_bare_fence() {
    assert_eq!(clean_fences("```\n{\"a\":1}\n```"), "{\"a\":1}");
}

#[test]
fn clean_leaves_unfenced_text_trimmed() {
    assert_eq!(clean_fences("  {\"a\":1} \n"), "{\"a\":1}");
}

#[test]
fn clean_strips_each_fence_independently() {
    assert_eq!(clean_fences("```json\n{\"a\":1}"), "{\"a\":1}");
    assert_eq!(clean_fences("{\"a\":1}\n```"), "{\"a\":1}");
}

#[test]
fn clean_handles_fences_without_newlines() {
    assert_eq!(clean_fences("```json{\"a\":1}```"), "{\"a\":1}");
}

#[test]
fn decimal_digits_of_u16() {
    assert_eq!(u16_to_string(0), "0");
    assert_eq!(u16_to_string(7), "7");
    assert_eq!(u16_to_string(30), "30");
    assert_eq!(u16_to_string(500), "500");
    assert_eq!(u16_to_string(65535), "65535");
}

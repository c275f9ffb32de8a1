use kronforce_notifications::text::{
    chars_of, decimal_text, is_whitespace, same_text, text_clip, text_contains,
    text_cuts_cleanly, text_join, text_replace, text_trim,
};

#[test]
fn replacement_goes_from_left_to_right() {
    assert_eq!(text_replace("aaaa", "aa", "b"), "bb");
    assert_eq!(text_replace("aaa", "aa", "b"), "ba");
    assert_eq!(text_replace("abab", "ab", "abab"), "abababab");
    assert_eq!(text_replace("xyz", "q", "b"), "xyz");
    assert_eq!(text_replace("", "q", "b"), "");
    assert_eq!(text_replace("q", "qq", "b"), "q");
}

#[test]
fn replacement_agrees_with_std() {
    let texts = ["", "a", "{{a}}", "{{{a}}}", "é{{a}}é", "aab", "{{a}}{{a}}"];
    for s in texts.iter() {
        for pat in ["a", "{{a}}", "}}", "é"].iter() {
            for rep in ["", "a", "{{a}}", "xyz"].iter() {
                assert_eq!(text_replace(s, pat, rep), s.replace(pat, rep));
            }
        }
    }
}

#[test]
fn search_finds_occurrences() {
    assert!(text_contains("job succeeded", "succeeded"));
    assert!(text_contains("succeeded", "succeeded"));
    assert!(text_contains("abc", ""));
    assert!(text_contains("", ""));
    assert!(!text_contains("succeede", "succeeded"));
    assert!(!text_contains("", "a"));
}

#[test]
fn white_space_is_that_of_unicode() {
    for code in 0..=0x10FFFFu32 {
        if let Some(c) = char::from_u32(code) {
            assert_eq!(is_whitespace(c), c.is_whitespace(), "{:x}", code);
        }
    }
}

#[test]
fn trimming_agrees_with_std() {
    let texts = ["", " ", "\t\n a b \r\n", "a", "\u{3000}é \u{2029}", "x\u{200b}", " \u{85}"];
    for s in texts.iter() {
        assert_eq!(text_trim(s), s.trim());
    }
}

#[test]
fn numbers_are_written_in_decimal() {
    assert_eq!(decimal_text(0), "0");
    assert_eq!(decimal_text(9), "9");
    assert_eq!(decimal_text(10), "10");
    assert_eq!(decimal_text(1204), "1204");
    assert_eq!(decimal_text(usize::MAX), usize::MAX.to_string());
}

#[test]
fn parts_are_joined() {
    let none: Vec<String> = vec![];
    assert_eq!(text_join(&none, "; "), "");
    assert_eq!(text_join(&vec!["a".to_string()], "; "), "a");
    assert_eq!(
        text_join(&vec!["a".to_string(), "".to_string(), "c".to_string()], "; "),
        "a; ; c"
    );
}

#[test]
fn texts_are_compared() {
    assert!(same_text("", ""));
    assert!(same_text("é1", "é1"));
    assert!(!same_text("a", "b"));
    assert!(!same_text("a", "ab"));
    assert_eq!(chars_of("aé"), vec!['a', 'é']);
}

#[test]
fn texts_are_cut_between_characters() {
    assert_eq!(text_clip("abcdef", 3), "abc");
    assert_eq!(text_clip("abc", 3), "abc");
    assert_eq!(text_clip("abc", 10), "abc");
    assert_eq!(text_clip("aéb", 3), "aé");
    assert!(text_cuts_cleanly("aéb", 3));
    assert!(text_cuts_cleanly("aéb", 1));
    assert!(!text_cuts_cleanly("aéb", 2));
    assert!(text_cuts_cleanly("aéb", 4));
    assert!(text_cuts_cleanly("aéb", 40));
}

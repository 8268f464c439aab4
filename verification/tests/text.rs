use camera_bot::text::{is_whitespace, same_text, split_whitespace};

#[test]
fn white_space_is_the_unicode_property() {
    for code in 0..=0x10FFFFu32 {
        if let Some(c) = char::from_u32(code) {
            assert_eq!(is_whitespace(c), c.is_whitespace(), "U+{:04X}", code);
        }
    }
}

#[test]
fn white_space_at_the_edges_of_the_ranges() {
    assert!(!is_whitespace('\u{8}'));
    assert!(is_whitespace('\u{9}'));
    assert!(is_whitespace('\u{D}'));
    assert!(!is_whitespace('\u{E}'));
    assert!(is_whitespace(' '));
    assert!(is_whitespace('\u{85}'));
    assert!(is_whitespace('\u{A0}'));
    assert!(is_whitespace('\u{1680}'));
    assert!(!is_whitespace('\u{1FFF}'));
    assert!(is_whitespace('\u{2000}'));
    assert!(is_whitespace('\u{200A}'));
    assert!(!is_whitespace('\u{200B}'));
    assert!(is_whitespace('\u{2028}'));
    assert!(is_whitespace('\u{2029}'));
    assert!(is_whitespace('\u{202F}'));
    assert!(is_whitespace('\u{205F}'));
    assert!(is_whitespace('\u{3000}'));
    assert!(!is_whitespace('a'));
}

#[test]
fn splitting_gives_the_words() {
    assert_eq!(split_whitespace("camera FPS 30"), vec!["camera", "FPS", "30"]);
    assert_eq!(split_whitespace("apple"), vec!["apple"]);
    assert_eq!(split_whitespace(""), Vec::<String>::new());
    assert_eq!(split_whitespace(" \t\n"), Vec::<String>::new());
    assert_eq!(split_whitespace("  a  b\tc\n"), vec!["a", "b", "c"]);
    assert_eq!(split_whitespace("a\u{3000}b\u{A0}c"), vec!["a", "b", "c"]);
    assert_eq!(split_whitespace("\u{1F4F7} caf\u{E9}"), vec!["\u{1F4F7}", "caf\u{E9}"]);
}

#[test]
fn splitting_agrees_with_std() {
    let samples = [
        "value value value value",
        " leading",
        "trailing ",
        "a\u{2003}b",
        "\u{85}x\u{85}",
        "one\r\ntwo",
        "\u{1F9E0}\u{1F9E0} \u{26C1}",
        "x",
        " ",
    ];
    for sample in samples {
        let expected: Vec<String> = sample.split_whitespace().map(str::to_string).collect();
        assert_eq!(split_whitespace(sample), expected);
    }
}

#[test]
fn same_text_compares_characters() {
    assert!(same_text("", ""));
    assert!(same_text("camera", "camera"));
    assert!(!same_text("camera", "camerA"));
    assert!(!same_text("camera", "camer"));
    assert!(!same_text("", "a"));
    assert!(same_text("\u{1F4F7}", "\u{1F4F7}"));
    assert!(!same_text("\u{1F4F7}", "\u{1F4C1}"));
}

use git_commit_helper::text::{
    append_decimal, char_is_whitespace, chars_of, str_contains, str_is_blank,
};

fn decimal_of(n: u32) -> String {
    let mut out = String::new();
    append_decimal(&mut out, n);
    out
}

#[test]
fn whitespace_is_what_std_calls_whitespace() {
    let mut c = '\0';
    loop {
        assert_eq!(char_is_whitespace(c), c.is_whitespace(), "U+{:04X}", c as u32);
        if c == char::MAX {
            break;
        }
        c = match char::from_u32(c as u32 + 1) {
            Some(next) => next,
            None => '\u{E000}',
        };
    }
}

#[test]
fn whitespace_named_characters() {
    for c in [' ', '\t', '\n', '\r', '\u{0B}', '\u{0C}', '\u{85}', '\u{A0}', '\u{3000}'] {
        assert!(char_is_whitespace(c));
    }
    for c in ['a', '0', '-', '\0', '\u{200B}', '\u{FEFF}', '\u{180E}'] {
        assert!(!char_is_whitespace(c));
    }
}

#[test]
fn empty_text_is_blank() {
    assert!(str_is_blank(""));
}

#[test]
fn whitespace_only_text_is_blank() {
    assert!(str_is_blank(" "));
    assert!(str_is_blank("\n"));
    assert!(str_is_blank(" \t\r\n \u{3000}\u{2028}"));
}

#[test]
fn text_with_a_letter_is_not_blank() {
    assert!(!str_is_blank("a"));
    assert!(!str_is_blank("   a"));
    assert!(!str_is_blank("a   "));
    assert!(!str_is_blank("\n\n.\n\n"));
    assert!(!str_is_blank("\u{200B}"));
}

#[test]
fn blank_agrees_with_trimming() {
    let samples = [
        "",
        " ",
        "\n\n",
        "diff --git a/x b/x\n",
        "  x  ",
        "\u{A0}\u{1680}\u{2000}\u{200A}\u{202F}\u{205F}",
        "\u{A0}é",
        "\u{1F600}",
        "\t\u{0B}\u{0C}\r",
    ];
    for s in samples {
        assert_eq!(str_is_blank(s), s.trim().is_empty(), "{:?}", s);
    }
}

#[test]
fn chars_of_gives_each_character() {
    assert_eq!(chars_of(""), Vec::<char>::new());
    assert_eq!(chars_of("héllo"), vec!['h', 'é', 'l', 'l', 'o']);
    assert_eq!(chars_of("a\u{1F600}b"), vec!['a', '\u{1F600}', 'b']);
}

#[test]
fn contains_finds_a_part_anywhere() {
    assert!(str_contains("fatal: not a git repository", "not a git repository"));
    assert!(str_contains("not a git repository: x", "not a git repository"));
    assert!(str_contains("abc", "b"));
    assert!(str_contains("abc", "abc"));
    assert!(str_contains("aab", "ab"));
    assert!(str_contains("ababac", "abac"));
}

#[test]
fn contains_rejects_what_is_not_there() {
    assert!(!str_contains("", "a"));
    assert!(!str_contains("ab", "abc"));
    assert!(!str_contains("Not A Git Repository", "not a git repository"));
    assert!(!str_contains("not a git  repository", "not a git repository"));
    assert!(!str_contains("ababab", "abac"));
}

#[test]
fn the_empty_text_is_part_of_every_text() {
    assert!(str_contains("", ""));
    assert!(str_contains("abc", ""));
}

#[test]
fn contains_agrees_with_std() {
    let texts = ["", "a", "ab", "aab", "abab", "fatal: not a git repository (or any of the parent directories): .git\n", "é\u{1F600}é", "xyz"];
    let parts = ["", "a", "b", "ab", "ba", "not a git repository", "é", "\u{1F600}é", "z", "xyzz"];
    for text in texts {
        for part in parts {
            assert_eq!(str_contains(text, part), text.contains(part), "{:?} in {:?}", part, text);
        }
    }
}

#[test]
fn decimal_of_one_digit() {
    assert_eq!(decimal_of(0), "0");
    assert_eq!(decimal_of(1), "1");
    assert_eq!(decimal_of(9), "9");
}

#[test]
fn decimal_of_several_digits() {
    assert_eq!(decimal_of(10), "10");
    assert_eq!(decimal_of(50), "50");
    assert_eq!(decimal_of(101), "101");
    assert_eq!(decimal_of(4294967295), "4294967295");
}

#[test]
fn decimal_is_written_after_what_is_there() {
    let mut out = String::from("-");
    append_decimal(&mut out, 25);
    assert_eq!(out, "-25");
}

#[test]
fn decimal_agrees_with_std() {
    for n in 0..=1000u32 {
        assert_eq!(decimal_of(n), n.to_string());
    }
}

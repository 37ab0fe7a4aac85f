use rinertia::text::{
    chars_of, contains, ends_with, is_whitespace, split_lines, split_words, starts_with,
    string_of, to_lowercase, trim,
};

fn cs(s: &str) -> Vec<char> {
    s.chars().collect()
}

#[test]
fn lines_like_std() {
    for s in ["", "a", "a\n", "a\r\nb\n\nc", "\n", "x\r", "one\ntwo\r\nthree\r"] {
        let got: Vec<String> = split_lines(&cs(s)).iter().map(|l| string_of(l)).collect();
        let want: Vec<String> = s.lines().map(|l| l.to_string()).collect();
        assert_eq!(got, want, "lines of {:?}", s);
    }
}

#[test]
fn words_like_std() {
    for s in ["", "  ", "i 3", " a\tb \u{3000}c\n", "one"] {
        let got: Vec<String> = split_words(&cs(s)).iter().map(|l| string_of(l)).collect();
        let want: Vec<String> = s.split_whitespace().map(|l| l.to_string()).collect();
        assert_eq!(got, want, "words of {:?}", s);
    }
}

#[test]
fn trim_like_std() {
    for s in ["", "  x  ", "\u{a0}a b\u{2003}", "\n\n", "abc"] {
        assert_eq!(string_of(&trim(&cs(s))), s.trim());
    }
    for c in ['\u{85}', '\u{1680}', ' ', '\t', 'a', '\u{200b}', '\u{feff}'] {
        assert_eq!(is_whitespace(c), c.is_whitespace(), "{:?}", c);
    }
}

#[test]
fn prefixes_and_substrings() {
    assert!(starts_with(&cs("event3"), &cs("event")));
    assert!(!starts_with(&cs("ev"), &cs("event")));
    assert!(ends_with(&cs("b true"), &cs("true")));
    assert!(contains(&cs("hello world"), &cs("o w")));
    assert!(contains(&cs("abc"), &cs("")));
    assert!(!contains(&cs("abc"), &cs("abcd")));
    assert_eq!(chars_of("héllo"), cs("héllo"));
    assert_eq!(to_lowercase("ÉLAN"), "élan");
}

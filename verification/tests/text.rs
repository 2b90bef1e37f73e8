use bookmarks::text::{keyword_spans, like_pattern, split_keywords, text_contains, to_chars};
use bookmarks::time::Timestamp;

fn words(query: &str) -> Vec<String> {
    split_keywords(query)
}

#[test]
fn two_words_are_two_keywords() {
    assert_eq!(words("work urgent"), vec!["work", "urgent"]);
}

#[test]
fn white_space_only_separates() {
    assert_eq!(words("  work \t urgent\n"), vec!["work", "urgent"]);
    assert_eq!(words("work"), vec!["work"]);
    assert_eq!(words("a b  c   d"), vec!["a", "b", "c", "d"]);
    assert_eq!(words(""), Vec::<String>::new());
    assert_eq!(words(" \t\r\n"), Vec::<String>::new());
}

#[test]
fn white_space_is_the_25_code_points_of_unicode() {
    let mut found: Vec<u32> = Vec::new();
    for code in 0..=0x10FFFF_u32 {
        if let Some(c) = char::from_u32(code) {
            let split = words(&format!("a{}b", c)).len() == 2;
            assert_eq!(split, c.is_whitespace());
            if split {
                found.push(code);
            }
        }
    }
    let mut expected: Vec<u32> = vec![0x20, 0x85, 0xA0, 0x1680, 0x2028, 0x2029, 0x202F, 0x205F, 0x3000];
    expected.extend(0x9..=0xD);
    expected.extend(0x2000..=0x200A);
    expected.sort();
    assert_eq!(found, expected);
    assert_eq!(found.len(), 25);
}

#[test]
fn white_space_is_what_unicode_says() {
    assert_eq!(words("a\u{3000}b\u{a0}c\u{2003}d\u{85}e"), vec!["a", "b", "c", "d", "e"]);
    assert_eq!(words("a\u{200b}b"), vec!["a\u{200b}b"]);
    assert_eq!(words("a,b;c"), vec!["a,b;c"]);
}

#[test]
fn keywords_keep_characters_beyond_ascii() {
    assert_eq!(words("über straße 北京 🙂"), vec!["über", "straße", "北京", "🙂"]);
}

#[test]
fn spans_say_where_the_keywords_are() {
    assert_eq!(keyword_spans(&to_chars(" ab  cde")), vec![(1, 3), (5, 8)]);
    assert_eq!(keyword_spans(&to_chars("é 🙂x")), vec![(0, 1), (2, 4)]);
    assert_eq!(keyword_spans(&to_chars("")), vec![]);
}

#[test]
fn characters_of_a_text() {
    assert_eq!(to_chars("aé🙂"), vec!['a', 'é', '🙂']);
    assert_eq!(to_chars(""), Vec::<char>::new());
}

#[test]
fn a_text_contains_its_pieces() {
    assert!(text_contains("homework", "work"));
    assert!(text_contains("homework", "home"));
    assert!(text_contains("homework", "mew"));
    assert!(text_contains("homework", "homework"));
    assert!(text_contains("homework", ""));
    assert!(text_contains("", ""));
    assert!(!text_contains("homework", "works"));
    assert!(!text_contains("homework", "Work"));
    assert!(!text_contains("", "a"));
    assert!(!text_contains("ab", "abc"));
    assert!(!text_contains("aab", "aba"));
    assert!(text_contains("aaab", "aab"));
    assert!(text_contains("日本語のテキスト", "語の"));
    assert!(!text_contains("日本語", "本日"));
}

#[test]
fn the_pattern_of_a_keyword() {
    assert_eq!(like_pattern("work"), "%work%");
    assert_eq!(like_pattern(""), "%%");
    assert_eq!(like_pattern("a%b"), "%a%b%");
}

#[test]
fn instants_are_ordered_by_seconds_then_nanoseconds() {
    let a = Timestamp::new(5, 10);
    assert_eq!(a, Timestamp { secs: 5, nanos: 10 });
    assert!(a.is_before(&Timestamp::new(5, 11)));
    assert!(a.is_before(&Timestamp::new(6, 0)));
    assert!(!a.is_before(&Timestamp::new(5, 10)));
    assert!(!a.is_before(&Timestamp::new(5, 9)));
    assert!(!a.is_before(&Timestamp::new(4, 999_999_999)));
    assert!(Timestamp::new(-1, 0).is_before(&Timestamp::new(0, 0)));
    assert!(Timestamp::new(i64::MIN, 0).is_before(&Timestamp::new(i64::MAX, u32::MAX)));
}


use anonhive_worker::number::{decimal_text, parse_i32};
use anonhive_worker::text::{
    chars_of, has_prefix, has_text, is_white_space, leading_word, replace_text, same_text,
    split_text, text_after, text_of, trim,
};

#[test]
fn decimal_text_writes_every_sign() {
    assert_eq!(decimal_text(0), "0");
    assert_eq!(decimal_text(-7), "-7");
    assert_eq!(decimal_text(1234567890), "1234567890");
    assert_eq!(decimal_text(i64::MAX), "9223372036854775807");
    assert_eq!(decimal_text(i64::MIN), "-9223372036854775808");
}

#[test]
fn parse_i32_reads_what_std_reads() {
    let texts = [
        "", "+", "-", "0", "-0", "+7", "007", "1080", " 1080", "1080 ", "1_000", "2147483647",
        "2147483648", "-2147483648", "-2147483649", "99999999999999999999", "12a", "\u{662}", "--1",
    ];
    for text in texts {
        assert_eq!(parse_i32(text), text.parse::<i32>().ok(), "{}", text);
    }
    assert_eq!(parse_i32("-2147483648"), Some(i32::MIN));
    assert_eq!(parse_i32("2147483648"), None);
}

#[test]
fn parse_undoes_decimal() {
    for n in [0, 1, -1, 9, 10, 99, -100, 1080, i32::MAX, i32::MIN] {
        assert_eq!(parse_i32(&decimal_text(n as i64)), Some(n));
    }
}

#[test]
fn white_space_is_that_of_std() {
    for c in '\0'..=char::MAX {
        assert_eq!(is_white_space(c), c.is_whitespace(), "{:?}", c);
    }
}

#[test]
fn chars_and_back() {
    let chars = chars_of("a\u{e9}\u{1f3ac}b");
    assert_eq!(chars, vec!['a', '\u{e9}', '\u{1f3ac}', 'b']);
    assert_eq!(text_of(&chars, 1, 3), "\u{e9}\u{1f3ac}");
    assert_eq!(text_of(&chars, 2, 2), "");
}

#[test]
fn search_finds_what_std_finds() {
    let cases = [
        ("", ""), ("abc", ""), ("", "a"), ("abc", "abc"), ("abc", "bc"), ("abc", "cd"),
        ("aab", "ab"), ("time=1 time=2", "time="), ("\u{e9}\u{e9}x", "\u{e9}x"),
    ];
    for (hay, needle) in cases {
        assert_eq!(has_text(hay, needle), hay.contains(needle), "{} in {}", needle, hay);
        assert_eq!(has_prefix(hay, needle), hay.starts_with(needle), "{} at {}", needle, hay);
        assert_eq!(same_text(hay, needle), hay == needle);
        let after = hay.find(needle).map(|i| hay[i + needle.len()..].to_string());
        assert_eq!(text_after(hay, needle), after, "{} in {}", needle, hay);
    }
    assert_eq!(text_after("a=b=c", "="), Some("b=c".to_string()));
}

#[test]
fn replace_goes_from_the_left() {
    let cases = [
        ("", "aa", "b"), ("aaa", "aa", "b"), ("aaaa", "aa", "b"), ("xaay", "aa", ""),
        ("a.ts,b.ts", ".ts", ".bin"), (".t.ts", ".ts", ".bin"), ("abc", "abcd", "x"),
    ];
    for (hay, needle, with) in cases {
        assert_eq!(replace_text(hay, needle, with), hay.replace(needle, with), "{}", hay);
    }
    assert_eq!(replace_text("aaa", "aa", "b"), "ba");
}

#[test]
fn trim_and_words_are_those_of_std() {
    for text in ["", " ", "a", " a ", "\u{a0}a b\u{2003}\n", "\t\r\n", "a\u{200b} ", "one two"] {
        assert_eq!(trim(text), text.trim(), "{:?}", text);
        assert_eq!(
            leading_word(text).as_deref(),
            text.split_whitespace().next(),
            "{:?}",
            text
        );
    }
    assert_eq!(trim("\n 42\t"), "42");
}

#[test]
fn split_is_that_of_std() {
    for text in ["", ":", "a", "a:b", ":a::b:", "01:02:03.50"] {
        let parts: Vec<&str> = text.split(':').collect();
        assert_eq!(split_text(text, ':'), parts, "{}", text);
    }
}

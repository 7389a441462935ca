use assyst_core::duration::{parse_to_millis, unit_of};
use assyst_core::number::{
    digit_of, digit_to_char, digits_to_u64, is_digit_char, parse_u64, push_decimal,
};
use assyst_core::pattern::{
    find_gif_in, gif_link_end_in, is_word_character, matches_at, starts_with,
};
use assyst_core::text::{
    chars_of, is_space_char, skip_spaces_in, split_words, string_from, word_end_in,
};

fn chars(s: &str) -> Vec<char> {
    s.chars().collect()
}

#[test]
fn characters_of_a_string() {
    assert_eq!(chars_of(""), Vec::<char>::new());
    assert_eq!(chars_of("aé"), vec!['a', 'é']);
    assert_eq!(chars_of("\u{1F600}b"), vec!['\u{1F600}', 'b']);
}

#[test]
fn string_from_characters() {
    let v = chars("héllo");
    assert_eq!(string_from(&v, 0, 5), "héllo");
    assert_eq!(string_from(&v, 1, 3), "él");
    assert_eq!(string_from(&v, 2, 2), "");
}

#[test]
fn ascii_whitespace() {
    for c in [' ', '\t', '\n', '\x0c', '\r'] {
        assert!(is_space_char(c));
    }
    for c in ['a', '\x0b', '\u{a0}', '\u{2003}', '0', '-'] {
        assert!(!is_space_char(c));
    }
}

#[test]
fn skipping_spaces_and_words() {
    let v = chars("  ab  c");
    assert_eq!(skip_spaces_in(&v, 0), 2);
    assert_eq!(skip_spaces_in(&v, 2), 2);
    assert_eq!(word_end_in(&v, 2), 4);
    assert_eq!(word_end_in(&v, 4), 4);
    assert_eq!(skip_spaces_in(&v, 4), 6);
    assert_eq!(word_end_in(&v, 6), 7);
    assert_eq!(skip_spaces_in(&v, 7), 7);
}

#[test]
fn words_of_a_text() {
    assert_eq!(split_words(&chars("")), Vec::<String>::new());
    assert_eq!(split_words(&chars(" \n ")), Vec::<String>::new());
    assert_eq!(split_words(&chars("one")), vec!["one"]);
    assert_eq!(split_words(&chars(" one\ttwo  three\r\n")), vec!["one", "two", "three"]);
    let text = "a  b\u{a0}c d";
    let expected: Vec<&str> = text.split_ascii_whitespace().collect();
    assert_eq!(split_words(&chars(text)), expected);
}

#[test]
fn digits() {
    for (i, c) in "0123456789".chars().enumerate() {
        assert!(is_digit_char(c));
        assert_eq!(digit_of(c), i as u64);
        assert_eq!(digit_to_char(i as u64), c);
    }
    for c in ['a', '/', ':', '٣', ' '] {
        assert!(!is_digit_char(c));
    }
}

#[test]
fn digits_to_number() {
    let v = chars("x0123y");
    assert_eq!(digits_to_u64(&v, 1, 5), Some(123));
    assert_eq!(digits_to_u64(&v, 1, 1), Some(0));
    assert_eq!(digits_to_u64(&v, 0, 5), None);
    assert_eq!(digits_to_u64(&v, 1, 6), None);
    assert_eq!(digits_to_u64(&chars("18446744073709551615"), 0, 20), Some(u64::MAX));
    assert_eq!(digits_to_u64(&chars("18446744073709551616"), 0, 20), None);
    assert_eq!(digits_to_u64(&chars("99999999999999999999"), 0, 20), None);
    assert_eq!(digits_to_u64(&chars("000000000000000000000001"), 0, 24), Some(1));
}

#[test]
fn number_parsing_agrees_with_the_standard_library() {
    for word in [
        "", "0", "1", "+1", "-1", "+", "++1", "+-1", "12 ", " 12", "0x10", "1e3", "00012",
        "18446744073709551615", "18446744073709551616", "+18446744073709551615", "１２",
    ] {
        assert_eq!(parse_u64(&chars(word)), word.parse::<u64>().ok(), "{word:?}");
    }
}

#[test]
fn decimal_digits_of_a_number() {
    for n in [0u64, 7, 10, 99, 100, 123456789, u64::MAX] {
        let mut out = "id=".to_owned();
        push_decimal(&mut out, n);
        assert_eq!(out, format!("id={n}"));
    }
}

#[test]
fn units_of_time() {
    assert_eq!(unit_of('s'), Some(1_000));
    assert_eq!(unit_of('m'), Some(60_000));
    assert_eq!(unit_of('h'), Some(3_600_000));
    assert_eq!(unit_of('d'), Some(86_400_000));
    for c in ['S', 'w', 'y', '1', ' '] {
        assert_eq!(unit_of(c), None);
    }
}

#[test]
fn durations() {
    assert_eq!(parse_to_millis(&chars("1h20m30s")), Some(4_830_000));
    assert_eq!(parse_to_millis(&chars("5s")), Some(5_000));
    assert_eq!(parse_to_millis(&chars("1s1s")), Some(2_000));
    assert_eq!(parse_to_millis(&chars("")), None);
    assert_eq!(parse_to_millis(&chars("5")), None);
    assert_eq!(parse_to_millis(&chars("s")), None);
    assert_eq!(parse_to_millis(&chars("5s ")), None);
    assert_eq!(parse_to_millis(&chars("5s5")), None);
    assert_eq!(parse_to_millis(&chars("+5s")), None);
}

#[test]
fn fixed_text_at_a_position() {
    let v = chars("abcabc");
    assert!(matches_at(&v, 0, "abc"));
    assert!(matches_at(&v, 3, "abc"));
    assert!(!matches_at(&v, 1, "abc"));
    assert!(!matches_at(&v, 4, "abc"));
    assert!(matches_at(&v, 6, ""));
    assert!(matches_at(&v, 2, "c"));
    assert!(!matches_at(&v, 0, "abcabcd"));
}

#[test]
fn prefixes() {
    assert!(starts_with("https://x", "https://"));
    assert!(starts_with("abc", ""));
    assert!(starts_with("abc", "abc"));
    assert!(!starts_with("ab", "abc"));
    assert!(!starts_with("xabc", "abc"));
    assert!(!starts_with("", "a"));
}

#[test]
fn word_characters() {
    for c in ['a', 'z', 'A', 'Z', '0', '9', '_'] {
        assert!(is_word_character(c));
    }
    for c in ['-', '.', '/', ' ', 'é', '\u{1F600}'] {
        assert!(!is_word_character(c));
    }
}

#[test]
fn links_to_animations() {
    let page = chars("see https://media.tenor.com/ab-c/file name.gif now");
    assert_eq!(gif_link_end_in(&page, 4), Some(46));
    assert_eq!(gif_link_end_in(&page, 0), None);
    assert_eq!(gif_link_end_in(&page, 5), None);
    assert_eq!(gif_link_end_in(&page, page.len()), None);
    assert_eq!(find_gif_in(&page), Some((4, 46)));
    assert_eq!(find_gif_in(&chars("https://media.tenor.com/ab-c/file.png")), None);
    assert_eq!(find_gif_in(&chars("")), None);
}

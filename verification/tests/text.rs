use catalog_core::text::{
    chars_of, find, first_visible, matches_at, push_decimal, to_ascii_upper, upper_chars,
    whitespace,
};

fn chars(text: &str) -> Vec<char> {
    text.chars().collect()
}

#[test]
fn ascii_letters_fold_to_upper_case() {
    assert_eq!(to_ascii_upper('a'), 'A');
    assert_eq!(to_ascii_upper('z'), 'Z');
    assert_eq!(to_ascii_upper('Q'), 'Q');
    assert_eq!(to_ascii_upper('7'), '7');
    assert_eq!(to_ascii_upper('`'), '`');
    assert_eq!(to_ascii_upper('{'), '{');
}

#[test]
fn other_letters_are_left_alone() {
    assert_eq!(to_ascii_upper('é'), 'é');
    assert_eq!(to_ascii_upper('ß'), 'ß');
    assert_eq!(upper_chars("drop täble"), chars("DROP TäBLE"));
}

#[test]
fn folding_agrees_with_std_on_ascii() {
    for code in 0u8..128 {
        let c = code as char;
        assert_eq!(to_ascii_upper(c), c.to_ascii_uppercase());
    }
}

#[test]
fn whitespace_agrees_with_std() {
    for code in 0u32..0x3100 {
        if let Some(c) = char::from_u32(code) {
            assert_eq!(whitespace(c), c.is_whitespace(), "U+{:04X}", code);
        }
    }
    assert!(!whitespace('\u{FEFF}'));
}

#[test]
fn chars_of_keeps_every_character() {
    assert_eq!(chars_of(""), Vec::<char>::new());
    assert_eq!(chars_of("añ🎬"), vec!['a', 'ñ', '🎬']);
}

#[test]
fn first_visible_skips_leading_whitespace() {
    assert_eq!(first_visible(&chars("  \t\nx y"), 0), 4);
    assert_eq!(first_visible(&chars("x  "), 0), 0);
    assert_eq!(first_visible(&chars("x  "), 1), 3);
    assert_eq!(first_visible(&chars("   "), 0), 3);
    assert_eq!(first_visible(&chars(""), 0), 0);
}

#[test]
fn matches_at_looks_at_one_place() {
    let hay = chars("abcabc");
    assert!(matches_at(&hay, &chars("abc"), 0));
    assert!(matches_at(&hay, &chars("abc"), 3));
    assert!(!matches_at(&hay, &chars("abc"), 1));
    assert!(!matches_at(&hay, &chars("abc"), 4));
    assert!(!matches_at(&hay, &chars("abc"), 100));
    assert!(matches_at(&hay, &chars(""), 6));
    assert!(!matches_at(&hay, &chars(""), 7));
    assert!(!matches_at(&chars("ab"), &chars("abc"), 0));
}

#[test]
fn find_looks_everywhere() {
    assert!(find(&chars("say DROP TABLE now"), &chars("DROP TABLE")));
    assert!(find(&chars("DROP TABLE"), &chars("DROP TABLE")));
    assert!(find(&chars("xxDROP TABLE"), &chars("DROP TABLE")));
    assert!(!find(&chars("DROP TABL"), &chars("DROP TABLE")));
    assert!(!find(&chars("DROP  TABLE"), &chars("DROP TABLE")));
    assert!(find(&chars(""), &chars("")));
    assert!(find(&chars("abc"), &chars("")));
    assert!(!find(&chars(""), &chars("a")));
}

#[test]
fn decimal_has_no_leading_zeros() {
    let mut text = String::from("n=");
    push_decimal(&mut text, 0);
    assert_eq!(text, "n=0");
    let mut text = String::new();
    push_decimal(&mut text, 9);
    push_decimal(&mut text, 10);
    push_decimal(&mut text, 1234567890);
    assert_eq!(text, "9101234567890");
    let mut text = String::new();
    push_decimal(&mut text, usize::MAX);
    assert_eq!(text, usize::MAX.to_string());
}

use moccasin::text::{insert_char, is_space_char, join, remove_char, split_words};

#[test]
fn words_are_split_at_white_space() {
    assert_eq!(split_words("a bc  d"), vec!["a", "bc", "d"]);
    assert_eq!(split_words("  lead and trail \t\n"), vec!["lead", "and", "trail"]);
    assert_eq!(split_words(""), Vec::<String>::new());
    assert_eq!(split_words(" \u{a0}\u{2003} "), Vec::<String>::new());
    assert_eq!(split_words("one"), vec!["one"]);
    assert_eq!(split_words("é\u{3000}日本"), vec!["é", "日本"]);
}

#[test]
fn split_words_agrees_with_the_standard_library() {
    for s in ["", " ", "a", " a b ", "x\ty\nz", "\u{85}n\u{1680}m", "q\u{200b}r", "\u{feff}"] {
        let expected: Vec<String> = s.split_whitespace().map(String::from).collect();
        assert_eq!(split_words(s), expected);
    }
}

#[test]
fn white_space_is_what_the_standard_library_says() {
    for n in 0..0x3100u32 {
        if let Some(c) = char::from_u32(n) {
            assert_eq!(is_space_char(c), c.is_whitespace(), "at {:#x}", n);
        }
    }
    assert!(!is_space_char('\u{feff}'));
    assert!(!is_space_char('\u{10ffff}'));
}

#[test]
fn texts_are_joined_with_a_separator() {
    let parts = vec!["a".to_string(), "b".to_string(), "c".to_string()];
    assert_eq!(join(&parts, ", "), "a, b, c");
    assert_eq!(join(&vec!["only".to_string()], ", "), "only");
    assert_eq!(join(&vec![], ", "), "");
    assert_eq!(join(&vec!["".to_string(), "".to_string()], "-"), "-");
}

#[test]
fn characters_are_inserted_and_removed_by_position() {
    assert_eq!(insert_char("ac", 1, 'b'), "abc");
    assert_eq!(insert_char("ab", 2, 'c'), "abc");
    assert_eq!(insert_char("ab", 9, 'c'), "abc");
    assert_eq!(insert_char("", 0, 'x'), "x");
    assert_eq!(insert_char("日本", 1, 'ー'), "日ー本");
    assert_eq!(remove_char("abc", 1), "ac");
    assert_eq!(remove_char("abc", 3), "abc");
    assert_eq!(remove_char("日本語", 0), "本語");
    assert_eq!(remove_char("", 0), "");
}

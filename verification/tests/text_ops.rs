use hotline_mod_manager::text::{
    file_has_extension, find_in, fold_ascii, is_whitespace_char, join_texts, line_ranges,
    range_eq_ignore_ascii_case, rfind_in, same_text, split_ranges, split_text, to_chars,
    trim_range,
};

fn cut(text: &str, range: (usize, usize)) -> String {
    text.chars().skip(range.0).take(range.1 - range.0).collect()
}

#[test]
fn to_chars_gives_every_character() {
    assert_eq!(to_chars("aé\n"), vec!['a', 'é', '\n']);
    assert_eq!(to_chars(""), Vec::<char>::new());
}

#[test]
fn whitespace_is_the_unicode_white_space_property() {
    for code in 0u32..=0x10FFFF {
        if let Some(c) = char::from_u32(code) {
            assert_eq!(is_whitespace_char(c), c.is_whitespace(), "code point {code:#x}");
        }
    }
}

#[test]
fn fold_ascii_lowers_ascii_capitals_only() {
    for code in 0u32..=0x10FFFF {
        if let Some(c) = char::from_u32(code) {
            assert_eq!(fold_ascii(c), c.to_ascii_lowercase() as u32);
        }
    }
    assert_eq!(fold_ascii('A'), 'a' as u32);
    assert_eq!(fold_ascii('Z'), 'z' as u32);
    assert_eq!(fold_ascii('É'), 'É' as u32);
}

#[test]
fn trim_range_drops_whitespace_at_both_ends() {
    let text = "  a b \t\r\n";
    let chars = to_chars(text);
    let range = trim_range(&chars, 0, chars.len());
    assert_eq!(range, (2, 5));
    assert_eq!(cut(text, range), "a b");
}

#[test]
fn trim_range_of_whitespace_alone_is_empty() {
    let chars = to_chars(" \t ");
    let range = trim_range(&chars, 0, 3);
    assert_eq!(range.0, range.1);
    let none = trim_range(&chars, 1, 1);
    assert_eq!(none, (1, 1));
}

#[test]
fn trim_range_agrees_with_str_trim() {
    for text in ["", " ", "a", " a", "a ", "\u{a0}x\u{3000}", "\u{2003}a\u{85}", "a\u{200b}"] {
        let chars = to_chars(text);
        let range = trim_range(&chars, 0, chars.len());
        assert_eq!(cut(text, range), text.trim());
    }
}

#[test]
fn trim_range_works_inside_a_range() {
    let text = "xx  ab  yy";
    let chars = to_chars(text);
    assert_eq!(trim_range(&chars, 2, 8), (4, 6));
}

#[test]
fn find_in_gives_the_first_position_or_the_end() {
    let chars = to_chars("a:b:c");
    assert_eq!(find_in(&chars, 0, 5, ':'), 1);
    assert_eq!(find_in(&chars, 2, 5, ':'), 3);
    assert_eq!(find_in(&chars, 4, 5, ':'), 5);
    assert_eq!(find_in(&chars, 0, 1, ':'), 1);
    assert_eq!(find_in(&chars, 0, 0, ':'), 0);
}

#[test]
fn rfind_in_gives_the_last_position() {
    let chars = to_chars("a.b.c");
    assert_eq!(rfind_in(&chars, 0, 5, '.'), Some(3));
    assert_eq!(rfind_in(&chars, 0, 3, '.'), Some(1));
    assert_eq!(rfind_in(&chars, 0, 1, '.'), None);
    assert_eq!(rfind_in(&chars, 4, 5, '.'), None);
}

#[test]
fn split_ranges_agrees_with_str_split() {
    for text in ["", "_", "a", "a_b", "_a", "a_", "a__b", "my_cool_mod", "é_ü"] {
        let chars = to_chars(text);
        let pieces: Vec<String> =
            split_ranges(&chars, '_').into_iter().map(|range| cut(text, range)).collect();
        let expected: Vec<String> = text.split('_').map(String::from).collect();
        assert_eq!(pieces, expected, "splitting {text:?}");
    }
}

#[test]
fn line_ranges_end_a_line_at_each_line_feed() {
    let text = "a\nbc\n\nd";
    let chars = to_chars(text);
    assert_eq!(line_ranges(&chars), vec![(0, 1), (2, 4), (5, 5), (6, 7)]);
}

#[test]
fn line_ranges_of_the_empty_text_is_empty() {
    assert_eq!(line_ranges(&to_chars("")), Vec::<(usize, usize)>::new());
}

#[test]
fn line_ranges_do_not_open_a_line_after_the_last_line_feed() {
    assert_eq!(line_ranges(&to_chars("a\n")), vec![(0, 1)]);
    assert_eq!(line_ranges(&to_chars("\n")), vec![(0, 0)]);
    assert_eq!(line_ranges(&to_chars("\n\n")), vec![(0, 0), (1, 1)]);
}

#[test]
fn trimmed_lines_agree_with_str_lines() {
    for text in ["", "a", "a\n", "a\r\nb\r\n", "a\rb\n", " a \n\n b", "\n", "x\r", "x\r\n\r\n"] {
        let chars = to_chars(text);
        let lines: Vec<String> = line_ranges(&chars)
            .into_iter()
            .map(|range| cut(text, trim_range(&chars, range.0, range.1)))
            .collect();
        let expected: Vec<String> = text.lines().map(|line| String::from(line.trim())).collect();
        assert_eq!(lines, expected, "lines of {text:?}");
    }
}

#[test]
fn same_text_compares_character_by_character() {
    assert!(same_text("abc", "abc"));
    assert!(same_text("", ""));
    assert!(!same_text("abc", "abd"));
    assert!(!same_text("abc", "ab"));
    assert!(!same_text("abc", "ABC"));
}

#[test]
fn range_comparison_ignores_ascii_case_only() {
    let chars = to_chars("x.PatchWad");
    assert!(range_eq_ignore_ascii_case(&chars, 2, 10, &to_chars("patchwad")));
    assert!(!range_eq_ignore_ascii_case(&chars, 2, 9, &to_chars("patchwad")));
    assert!(!range_eq_ignore_ascii_case(&chars, 2, 10, &to_chars("patchwax")));
    let accented = to_chars("É");
    assert!(!range_eq_ignore_ascii_case(&accented, 0, 1, &to_chars("é")));
}

#[test]
fn file_has_extension_follows_the_last_dot() {
    assert!(file_has_extension("music.wad", "wad"));
    assert!(file_has_extension("MUSIC.WAD", "wad"));
    assert!(file_has_extension("a.b.Wad", "wad"));
    assert!(file_has_extension("a.patchwad", "patchwad"));
    assert!(!file_has_extension("a.patchwad", "wad"));
    assert!(!file_has_extension("wad", "wad"));
    assert!(!file_has_extension("a.wad.txt", "wad"));
    assert!(!file_has_extension("a.wadx", "wad"));
}

#[test]
fn file_has_extension_knows_the_names_without_extension() {
    assert!(!file_has_extension(".wad", "wad"));
    assert!(!file_has_extension("..", ""));
    assert!(!file_has_extension("", ""));
    assert!(!file_has_extension("plain", ""));
    assert!(file_has_extension("a.", ""));
    assert!(file_has_extension("..wad", "wad"));
    assert!(file_has_extension(".a.wad", "wad"));
}

#[test]
fn file_has_extension_agrees_with_the_standard_library() {
    let names = [
        "a.wad", ".wad", "..", "a.", "a", "", ".a.b", "..wad", "x.y.z", "A.WAD", "é.wad", "...",
        ".a.", "a..b", ".", "a.b.", "wad.",
    ];
    for name in names {
        let extension = std::path::Path::new(name).extension().and_then(|e| e.to_str());
        for wanted in ["wad", "", "b", "z"] {
            let expected = extension.is_some_and(|found| found.eq_ignore_ascii_case(wanted));
            assert_eq!(file_has_extension(name, wanted), expected, "{name:?} against {wanted:?}");
        }
    }
}

#[test]
fn split_text_agrees_with_str_split() {
    for text in ["", "_", "a", "a_b", "_a", "a_", "a__b", "my_cool_mod", "é_ü"] {
        let expected: Vec<String> = text.split('_').map(String::from).collect();
        assert_eq!(split_text(text, '_'), expected, "splitting {text:?}");
    }
    assert_eq!(split_text("a:b", ':'), vec![String::from("a"), String::from("b")]);
}

#[test]
fn join_texts_puts_the_separator_between_neighbours() {
    let parts = vec![String::from("a"), String::from(""), String::from("bc")];
    assert_eq!(join_texts(&parts, " "), "a  bc");
    assert_eq!(join_texts(&parts, ", "), "a, , bc");
    assert_eq!(join_texts(&parts, ""), "abc");
    assert_eq!(join_texts(&vec![String::from("one")], " "), "one");
    assert_eq!(join_texts(&Vec::new(), " "), "");
}

#[test]
fn join_texts_undoes_split_text() {
    for text in ["", "_", "a_b", "_a_", "a__b"] {
        assert_eq!(join_texts(&split_text(text, '_'), "_"), text);
    }
}

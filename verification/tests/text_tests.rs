use ralphtown::text;
use ralphtown::text::{
    chars_of, decimal, ends_with_at, holds_char, holds_text, is_whitespace, last_segment_start,
    or_empty, push_decimal, same_text, strip_suffix_end, strip_trailing_end, take_prefix, trimmed,
};

const SAMPLES: [&str; 12] = [
    "",
    " ",
    "repo",
    "  padded  ",
    "\t\nInitial commit\r\n\n",
    "\u{a0}\u{2003}wide\u{3000}\u{85}",
    "inner  space",
    "\u{200b}zero width is no space\u{200b}",
    "é\u{1680}",
    "https://github.com/user/repo.git",
    "git@github.com:user/repo.git",
    "a//b///",
];

#[test]
fn white_space_is_what_the_standard_library_calls_so() {
    let mut n: u32 = 0;
    while n <= 0x10ffff {
        if let Some(c) = char::from_u32(n) {
            assert_eq!(is_whitespace(c), c.is_whitespace(), "U+{:04X}", n);
        }
        n += 1;
    }
}

#[test]
fn trimming_agrees_with_the_standard_library() {
    for s in SAMPLES {
        assert_eq!(trimmed(s), s.trim(), "{:?}", s);
    }
    assert_eq!(trimmed("  active\n"), "active");
    assert_eq!(trimmed(" \t "), "");
}

#[test]
fn numbers_are_written_as_the_standard_library_writes_them() {
    for n in [0i64, 1, 9, 10, 11, 99, 100, 101, 65535, -1, -9, -10, -65536, i64::MAX, i64::MIN] {
        assert_eq!(decimal(n), n.to_string());
    }
    let mut s = String::from("n=");
    push_decimal(&mut s, u64::MAX);
    assert_eq!(s, "n=18446744073709551615");
    push_decimal(&mut s, 0);
    assert_eq!(s, "n=184467440737095516150");
}

#[test]
fn search_agrees_with_the_standard_library() {
    let needles = ["", "/", "//", ".git", "repo", "git", "t ", "\u{3000}", "absent", "a//b///x"];
    for s in SAMPLES {
        let chars = chars_of(s);
        assert_eq!(chars, s.chars().collect::<Vec<char>>());
        for needle in needles {
            let wanted = chars_of(needle);
            assert_eq!(holds_text(&chars, &wanted), s.contains(needle), "{:?} in {:?}", needle, s);
            assert_eq!(
                ends_with_at(&chars, chars.len(), &wanted),
                s.ends_with(needle),
                "{:?} at the end of {:?}",
                needle,
                s
            );
        }
        for c in ['/', ':', ' ', 'r'] {
            assert_eq!(holds_char(&chars, 0, chars.len(), c), s.contains(c));
        }
    }
    let chars = chars_of("a/b");
    assert!(!holds_char(&chars, 2, 3, '/'));
    assert!(holds_char(&chars, 1, 2, '/'));
    assert!(!holds_char(&chars, 1, 1, '/'));
}

#[test]
fn ends_are_stripped_and_segments_found() {
    let chars = chars_of("a//b///");
    assert_eq!(strip_trailing_end(&chars, chars.len(), '/'), 4);
    assert_eq!(strip_trailing_end(&chars, 3, '/'), 1);
    assert_eq!(strip_trailing_end(&chars, 0, '/'), 0);
    assert_eq!(strip_trailing_end(&chars, chars.len(), 'x'), 7);
    assert_eq!(last_segment_start(&chars, 4, '/'), 3);
    assert_eq!(last_segment_start(&chars, 7, '/'), 7);
    assert_eq!(last_segment_start(&chars, 1, '/'), 0);

    let url = chars_of("repo.git.git");
    let suffix = chars_of(".git");
    assert_eq!(strip_suffix_end(&url, url.len(), &suffix), 4);
    assert_eq!(strip_suffix_end(&url, 8, &suffix), 4);
    assert_eq!(strip_suffix_end(&url, 7, &suffix), 7);
    assert_eq!(strip_suffix_end(&url, url.len(), &Vec::new()), 12);
    assert_eq!(last_segment_start(&url, url.len(), '/'), 0);
}

#[test]
fn prefixes_count_characters_not_bytes() {
    assert_eq!(take_prefix("0123456789abcdef", 7), "0123456");
    assert_eq!(take_prefix("abc", 7), "abc");
    assert_eq!(take_prefix("abc", 3), "abc");
    assert_eq!(take_prefix("abc", 0), "");
    assert_eq!(take_prefix("héllo wörld", 2), "hé");
    for s in SAMPLES {
        for n in [0usize, 1, 5, 100] {
            assert_eq!(take_prefix(s, n), s.chars().take(n).collect::<String>());
        }
    }
}

#[test]
fn texts_are_joined_and_compared() {
    assert_eq!(text::concat("Git command failed: ", "boom"), "Git command failed: boom");
    assert_eq!(text::concat("", ""), "");
    assert_eq!(
        text::concat3("Session ", "x", " has no running process"),
        "Session x has no running process"
    );
    assert!(same_text("stdout", "stdout"));
    assert!(!same_text("stdout", "stdout "));
    assert!(!same_text("stdout", "STDOUT"));
    assert!(same_text("", ""));
    assert_eq!(or_empty(&Some("name".to_string())), "name");
    assert_eq!(or_empty(&None), "");
}

use p4nimau_rust::text::{
    chars_eq, chars_lt, chars_of, has_substring_exec, is_white_space_exec, str_remove_all, str_starts_with, str_trim,
};

fn chars(s: &str) -> Vec<char> {
    s.chars().collect()
}

#[test]
fn chars_of_keeps_every_char() {
    assert_eq!(chars_of("aé\u{3000}z"), vec!['a', 'é', '\u{3000}', 'z']);
    assert_eq!(chars_of(""), Vec::<char>::new());
}

#[test]
fn lexicographic_order_matches_str_order() {
    let words = ["", "a", "ab", "b", "mp4_240", "mp4_720", "w", "z", "é"];
    for x in words {
        for y in words {
            assert_eq!(chars_lt(&chars(x), &chars(y)), x < y, "{} < {}", x, y);
        }
    }
}

#[test]
fn substring_and_prefix() {
    assert!(has_substring_exec(&chars("opqr"), &chars("pq")));
    assert!(has_substring_exec(&chars("opqr"), &chars("")));
    assert!(!has_substring_exec(&chars("opqr"), &chars("s")));
    assert!(!has_substring_exec(&chars("op"), &chars("opq")));
    assert!(has_substring_exec(&chars("abc"), &chars("c")));
    assert!(str_starts_with("get cfg", "get"));
    assert!(str_starts_with("get cfg", ""));
    assert!(!str_starts_with("get", "get cfg"));
    assert!(chars_eq(&chars("mp4_720"), &chars("mp4_720")));
    assert!(!chars_eq(&chars("mp4_72"), &chars("mp4_720")));
}

#[test]
fn white_space_is_unicode_white_space() {
    for c in ['\t', '\n', '\u{0b}', '\u{0c}', '\r', ' ', '\u{85}', '\u{a0}', '\u{1680}', '\u{2000}',
        '\u{200a}', '\u{2028}', '\u{2029}', '\u{202f}', '\u{205f}', '\u{3000}', 'a', '\u{200b}',
        '\u{180e}', '_', '\0']
    {
        assert_eq!(is_white_space_exec(c), c.is_whitespace(), "{:?}", c);
    }
}

#[test]
fn trim_as_str_trim() {
    for s in ["  a b  ", "\u{3000}x\t", "", "   ", "nothing", "\n\u{a0}y"] {
        assert_eq!(str_trim(s), s.trim());
    }
    assert_eq!(str_trim(str_trim(" q ")), "q");
}

#[test]
fn remove_all_as_replace() {
    for (s, p) in [
        ("add anecdote answer joke", "add anecdote answer"),
        ("aaa", "aa"),
        ("abab", "ab"),
        ("xyz", ""),
        ("", "a"),
        ("joke add x answer", "add x answer"),
    ] {
        assert_eq!(str_remove_all(s, p), s.replace(p, ""), "{:?} {:?}", s, p);
    }
    assert_eq!(str_remove_all("aaa", "aa"), "a");
}

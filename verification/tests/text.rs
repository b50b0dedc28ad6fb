use cruzalex_themes::remote::{cache_file_name, fallback_preview_url, preview_sources};
use cruzalex_themes::text::{
    chars_of, contains_text, find_from, leading, match_at, phrase, push_decimal, same_text,
    text_before_or_same, text_of,
};

fn chars(s: &str) -> Vec<char> {
    s.chars().collect()
}

#[test]
fn chars_of_gives_the_characters() {
    assert_eq!(chars_of("aé-b"), vec!['a', 'é', '-', 'b']);
    assert_eq!(chars_of(""), Vec::<char>::new());
}

#[test]
fn text_of_puts_characters_together() {
    assert_eq!(text_of(&chars("héllo")), "héllo");
    assert_eq!(text_of(&Vec::new()), "");
}

#[test]
fn phrase_joins_three_texts() {
    assert_eq!(phrase("Theme '", "nord", "' installed!"), "Theme 'nord' installed!");
    assert_eq!(phrase("", "", ""), "");
}

#[test]
fn leading_takes_at_most_n_characters() {
    assert_eq!(leading("abcdef", 3), "abc");
    assert_eq!(leading("ab", 3), "ab");
    assert_eq!(leading("abc", 3), "abc");
    assert_eq!(leading("ééé", 2), "éé");
    assert_eq!(leading("abc", 0), "");
}

#[test]
fn match_at_checks_one_position() {
    let hay = chars("github.com/a");
    assert!(match_at(&hay, &chars("github"), 0));
    assert!(match_at(&hay, &chars("com/"), 7));
    assert!(!match_at(&hay, &chars("com/"), 6));
    assert!(!match_at(&hay, &chars("a/"), 11));
    assert!(match_at(&hay, &chars(""), 12));
    assert!(!match_at(&hay, &chars(""), 13));
}

#[test]
fn find_from_finds_the_first_position() {
    let hay = chars("abcabc");
    assert_eq!(find_from(&hay, &chars("bc"), 0), Some(1));
    assert_eq!(find_from(&hay, &chars("bc"), 2), Some(4));
    assert_eq!(find_from(&hay, &chars("bc"), 5), None);
    assert_eq!(find_from(&hay, &chars("x"), 0), None);
    assert_eq!(find_from(&hay, &chars(""), 6), Some(6));
    assert_eq!(find_from(&hay, &chars("abcabcd"), 0), None);
}

#[test]
fn contains_text_is_substring_search() {
    assert!(contains_text("solarized-light", "light"));
    assert!(contains_text("light", "light"));
    assert!(!contains_text("ligh", "light"));
    assert!(contains_text("anything", ""));
    assert!(contains_text("", ""));
    assert!(!contains_text("", "a"));
}

#[test]
fn text_order_is_the_order_of_strings() {
    let pairs = [
        ("", ""),
        ("", "a"),
        ("a", ""),
        ("abc", "abd"),
        ("abd", "abc"),
        ("ab", "abc"),
        ("abc", "ab"),
        ("Z", "a"),
        ("a", "Z"),
        ("é", "z"),
        ("rose-pine", "rose-pine-dark"),
        ("ayu-dark", "ayu-light"),
    ];
    for (a, b) in pairs {
        assert_eq!(text_before_or_same(&chars(a), &chars(b)), a <= b, "{a:?} <= {b:?}");
    }
}

#[test]
fn same_text_compares_characters() {
    assert!(same_text(&chars("abc"), &chars("abc")));
    assert!(!same_text(&chars("abc"), &chars("abd")));
    assert!(!same_text(&chars("abc"), &chars("ab")));
    assert!(same_text(&chars(""), &chars("")));
}

#[test]
fn push_decimal_writes_numbers() {
    for n in [0u64, 7, 10, 42, 105, 1000, 9_999_999, u64::MAX] {
        let mut out = String::from("n=");
        push_decimal(&mut out, n);
        assert_eq!(out, format!("n={n}"));
    }
}

#[test]
fn fallback_url_switches_the_branch() {
    assert_eq!(
        fallback_preview_url("https://raw.githubusercontent.com/a/b/main/preview.png"),
        "https://raw.githubusercontent.com/a/b/master/preview.png"
    );
    assert_eq!(fallback_preview_url("/main/main/"), "/master/main/");
    assert_eq!(fallback_preview_url("/main//main/"), "/master//master/");
    assert_eq!(fallback_preview_url("no branch here"), "no branch here");
    assert_eq!(fallback_preview_url(""), "");
    for url in ["/main/main/", "x/main/y/main/z", "/main", "main/"] {
        assert_eq!(fallback_preview_url(url), url.replace("/main/", "/master/"));
    }
}

#[test]
fn preview_sources_are_tried_in_order() {
    let sources = preview_sources("https://h/o/r/main/preview.png");
    assert_eq!(
        sources,
        vec![
            "https://h/o/r/main/preview.png".to_string(),
            "https://h/o/r/master/preview.png".to_string()
        ]
    );
}

#[test]
fn cache_file_is_named_after_the_theme() {
    assert_eq!(cache_file_name("gamma"), "gamma.png");
    assert_eq!(cache_file_name(""), ".png");
}

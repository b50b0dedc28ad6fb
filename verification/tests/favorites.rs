use cruzalex_themes::app::App;
use cruzalex_themes::favorites::{parse_favorites, trim};
use cruzalex_themes::theme::Theme;

fn names(list: &[&str]) -> Vec<String> {
    list.iter().map(|s| s.to_string()).collect()
}

fn with_favorites(favorites: &[&str]) -> App {
    App::new(
        "c".to_string(),
        "t".to_string(),
        "k".to_string(),
        None,
        vec![Theme::from_remote("ash", "https://github.com/o/ash", None)],
        names(favorites),
    )
}

#[test]
fn trim_takes_white_space_off_both_ends() {
    let t = |s: &str| trim(&s.chars().collect());
    assert_eq!(t("  nord \t"), "nord");
    assert_eq!(t("nord"), "nord");
    assert_eq!(t("rose pine"), "rose pine");
    assert_eq!(t(" \r\n "), "");
    assert_eq!(t(""), "");
    assert_eq!(t("\u{a0}ash\u{3000}"), "ash");
    assert_eq!(t(" a  b "), "a  b");
    for s in ["  x ", "x", "", " ", "\t a\tb \n", "\u{2003}é\u{2003}"] {
        assert_eq!(t(s), s.trim());
    }
}

#[test]
fn favorites_are_read_line_by_line() {
    assert_eq!(parse_favorites("nord\nash\n"), names(&["nord", "ash"]));
    assert_eq!(parse_favorites("nord\r\nash"), names(&["nord", "ash"]));
    assert_eq!(parse_favorites("  nord  \n\n \n\tash\n\n"), names(&["nord", "ash"]));
    assert_eq!(parse_favorites("nord\nash\nnord\n ash "), names(&["nord", "ash"]));
    assert_eq!(parse_favorites("rose pine\n"), names(&["rose pine"]));
    assert_eq!(parse_favorites(""), Vec::<String>::new());
    assert_eq!(parse_favorites("\n\n"), Vec::<String>::new());
    assert_eq!(parse_favorites("one"), names(&["one"]));
}

#[test]
fn favorites_are_written_one_per_line() {
    assert_eq!(with_favorites(&[]).favorites_text(), "");
    assert_eq!(with_favorites(&["nord"]).favorites_text(), "nord");
    assert_eq!(with_favorites(&["nord", "ash", "wood"]).favorites_text(), "nord\nash\nwood");
}

#[test]
fn written_favorites_are_read_back() {
    let app = with_favorites(&["nord", "rose-pine", "c64"]);
    assert_eq!(parse_favorites(&app.favorites_text()), app.favorites);
}

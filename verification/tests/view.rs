use cruzalex_themes::app::App;
use cruzalex_themes::mode::FilterMode;
use cruzalex_themes::reconcile::TaskResult;
use cruzalex_themes::theme::{ColorPalette, Theme, ThemeStatus};
use cruzalex_themes::view::{palette_rows, parse_hex_color, PreviewPanel};
use image::DynamicImage;
use ratatui_image::picker::Picker;

fn remote(name: &str) -> Theme {
    Theme::from_remote(name, &format!("https://github.com/someone/{name}"), None)
}

fn local(name: &str) -> Theme {
    let mut t = remote(name);
    t.status = ThemeStatus::Installed;
    t.preview_url = None;
    t.preview_path = Some(format!("/themes/{name}/preview.png"));
    t
}

fn browser(themes: Vec<Theme>) -> App {
    let mut app =
        App::new("c".to_string(), "t".to_string(), "k".to_string(), None, themes, Vec::new());
    app.image_picker = Some(Picker::from_fontsize((8, 16)));
    app
}

#[test]
fn hex_colors_are_parsed() {
    assert_eq!(parse_hex_color("#1e1e2e"), Some((0x1e, 0x1e, 0x2e)));
    assert_eq!(parse_hex_color("FFFFFF"), Some((255, 255, 255)));
    assert_eq!(parse_hex_color("##000000"), Some((0, 0, 0)));
    assert_eq!(parse_hex_color("#aAbBcCdd"), Some((0xaa, 0xbb, 0xcc)));
    assert_eq!(parse_hex_color("#+1+2+f"), Some((1, 2, 15)));
    assert_eq!(parse_hex_color("#12345"), None);
    assert_eq!(parse_hex_color("#12345g"), None);
    assert_eq!(parse_hex_color("#1+3456"), None);
    assert_eq!(parse_hex_color("#-13456"), None);
    assert_eq!(parse_hex_color("12#456"), None);
    assert_eq!(parse_hex_color(""), None);
    assert_eq!(parse_hex_color("######"), None);
    assert_eq!(parse_hex_color("rgb(1,2,3)"), None);
    assert_eq!(parse_hex_color("#ééé123"), None);
}

#[test]
fn hex_colors_agree_with_the_radix_parser() {
    for text in ["#a1b2c3", "+a+b+c", "0099ff tail", "#00ff", "#zz0000", "#0f+f0f", "##+0+0+0"] {
        let hex = text.trim_start_matches('#');
        let expected = if hex.len() >= 6 {
            match (
                u8::from_str_radix(&hex[0..2], 16),
                u8::from_str_radix(&hex[2..4], 16),
                u8::from_str_radix(&hex[4..6], 16),
            ) {
                (Ok(r), Ok(g), Ok(b)) => Some((r, g, b)),
                _ => None,
            }
        } else {
            None
        };
        assert_eq!(parse_hex_color(text), expected, "{text}");
    }
}

#[test]
fn palette_rows_hold_the_colors_that_are_set() {
    let palette = ColorPalette {
        background: Some("#000000".to_string()),
        accent: Some("nonsense".to_string()),
        color1: Some("#ff0000".to_string()),
        color7: Some("#c0c0c0".to_string()),
        color15: Some("#ffffff".to_string()),
        ..ColorPalette::default()
    };
    let (base, normal, bright) = palette_rows(&palette);
    let shown = |row: &Vec<cruzalex_themes::view::Swatch>| -> Vec<(String, Option<(u8, u8, u8)>)> {
        row.iter().map(|s| (s.label.clone(), s.rgb)).collect()
    };
    assert_eq!(
        shown(&base),
        vec![(" bg ".to_string(), Some((0, 0, 0))), (" ac ".to_string(), None)]
    );
    assert_eq!(
        shown(&normal),
        vec![("1".to_string(), Some((255, 0, 0))), ("7".to_string(), Some((192, 192, 192)))]
    );
    assert_eq!(shown(&bright), vec![("15".to_string(), Some((255, 255, 255)))]);
    let (a, b, c) = palette_rows(&ColorPalette::default());
    assert!(a.is_empty() && b.is_empty() && c.is_empty());
}

#[test]
fn header_says_how_many_themes_are_shown() {
    let mut app = browser(vec![remote("ash"), local("nord"), remote("wood")]);
    assert_eq!(app.header_title(), " cruzAlex Themes | 3 themes | Filter: All | Sort: Name ");
    app.filter_installed();
    app.cycle_sort();
    assert_eq!(app.filter_mode, FilterMode::Installed);
    assert_eq!(app.header_title(), " cruzAlex Themes | 1 themes | Filter: Installed | Sort: Stars ");
    assert_eq!(app.loading_notice(), "");
    app.loading = true;
    assert_eq!(app.loading_notice(), " [Loading...]");
}

#[test]
fn search_prompt_shows_the_query() {
    let mut app = browser(Vec::new());
    assert_eq!(app.search_prompt(), "Search: |");
    app.search_input('a');
    app.search_input('é');
    assert_eq!(app.search_prompt(), "Search: aé|");
}

#[test]
fn list_rows_show_each_theme() {
    let mut nord = local("nord");
    nord.status = ThemeStatus::Active;
    nord.background_count = 12;
    nord.stars = Some(345);
    let mut app = browser(vec![remote("ayu-light"), nord]);
    app.favorites.push("nord".to_string());
    let rows = app.list_rows();
    assert_eq!(rows.len(), 2);
    assert_eq!(rows[0].status, ThemeStatus::Available);
    assert!(!rows[0].favorite);
    assert_eq!(rows[0].favorite_mark, "  ");
    assert_eq!(rows[0].status_mark, "◌ ");
    assert_eq!(rows[0].name, "Ayu Light");
    assert_eq!(rows[0].light_mark, " [light]");
    assert_eq!(rows[0].backgrounds_mark, "");
    assert_eq!(rows[0].stars_mark, "");
    assert_eq!(rows[1].status, ThemeStatus::Active);
    assert!(rows[1].favorite);
    assert_eq!(rows[1].favorite_mark, "★ ");
    assert_eq!(rows[1].status_mark, "● ");
    assert_eq!(rows[1].name, "Nord");
    assert_eq!(rows[1].light_mark, "");
    assert_eq!(rows[1].backgrounds_mark, " (12 bg)");
    assert_eq!(rows[1].stars_mark, " ⭐345");
    let row = app.row_of(1);
    assert_eq!(row.name, "Nord");
    app.themes[1].stars = Some(0);
    app.themes[1].status = ThemeStatus::Installed;
    assert_eq!(app.row_of(1).stars_mark, " ⭐0");
    assert_eq!(app.row_of(1).status_mark, "○ ");
}

#[test]
fn preview_panel_follows_the_preview() {
    let mut bare = local("bare");
    bare.preview_path = None;
    let mut app = browser(vec![bare, local("nord"), remote("wood")]);
    assert_eq!(app.preview_panel(), PreviewPanel::NoPreview);
    assert_eq!(app.preview_panel().notice(), "No preview available");
    let action = app.next();
    assert_eq!(app.preview_panel(), PreviewPanel::Loading);
    assert_eq!(app.preview_panel().notice(), "Loading preview...");
    let path = match action {
        cruzalex_themes::preview::PreviewAction::Decode { path } => path,
        other => panic!("expected a decode, got {other:?}"),
    };
    let image = Picker::from_fontsize((8, 16)).new_resize_protocol(DynamicImage::new_rgb8(1, 1));
    app.tick(TaskResult::ImageLoaded(path.clone(), Ok(image)), None);
    assert_eq!(app.preview_panel(), PreviewPanel::Image);
    assert_eq!(app.preview_panel().notice(), "");
    app.current_preview_image = None;
    assert_eq!(app.preview_panel(), PreviewPanel::Unavailable);
    assert_eq!(app.preview_panel().notice(), "Preview unavailable");
    app.next();
    assert_eq!(app.preview_panel(), PreviewPanel::Fetching);
    assert_eq!(app.preview_panel().notice(), "Fetching preview...");
    app.list_state.select(None);
    assert_eq!(app.preview_panel(), PreviewPanel::NoTheme);
    assert_eq!(app.preview_panel().notice(), "No theme selected");
    app.image_loading = true;
    app.list_state.select(Some(0));
    assert_eq!(app.preview_panel(), PreviewPanel::Loading);
}

use cruzalex_themes::local::{
    count_backgrounds, find_preview_image, holds_settings, is_background_name, load_local_themes,
    FoundFile, LocalEntry, PaletteFile, ScanError,
};
use cruzalex_themes::theme::{ColorPalette, Theme, ThemeStatus};

fn file(dir: &str, name: &str) -> FoundFile {
    FoundFile { name: name.to_string(), path: format!("{dir}/{name}") }
}

fn entry(name: &str, files: &[&str]) -> LocalEntry {
    let dir = format!("/themes/{name}");
    LocalEntry {
        path: dir.clone(),
        name: Some(name.to_string()),
        is_dir: true,
        files: files.iter().map(|f| file(&dir, f)).collect(),
        colors: if files.contains(&"colors.toml") {
            PaletteFile::Read(Some(ColorPalette {
                background: Some("#000000".to_string()),
                ..ColorPalette::default()
            }))
        } else {
            PaletteFile::Missing
        },
        backgrounds: None,
    }
}

#[test]
fn preview_is_the_first_candidate_that_exists() {
    let dir = "/t/x";
    let files = vec![
        file(dir, "screenshot.png"),
        file(dir, "preview.jpeg"),
        file(dir, "preview.jpg"),
        file(dir, "colors.toml"),
    ];
    assert_eq!(find_preview_image(&files).as_deref(), Some("/t/x/preview.jpg"));
    assert_eq!(
        find_preview_image(&vec![file(dir, "screenshot.png"), file(dir, "preview.png")]).as_deref(),
        Some("/t/x/preview.png")
    );
    assert_eq!(
        find_preview_image(&vec![file(dir, "screenshot.png"), file(dir, "preview.jpeg")]).as_deref(),
        Some("/t/x/preview.jpeg")
    );
    assert_eq!(
        find_preview_image(&vec![file(dir, "screenshot.png")]).as_deref(),
        Some("/t/x/screenshot.png")
    );
    assert_eq!(find_preview_image(&vec![file(dir, "Preview.png")]), None);
    assert_eq!(find_preview_image(&Vec::new()), None);
}

#[test]
fn background_names_go_by_extension() {
    for name in ["a.png", "a.PNG", "b.jpg", "c.JpEg", "d.webp", "x.y.png", ".hidden.png", "..png"] {
        assert!(is_background_name(name), "{name}");
    }
    for name in ["a.gif", "png", ".png", "a.png.txt", "a.", "", "..", "a.pngx", "jpeg"] {
        assert!(!is_background_name(name), "{name}");
    }
    for name in ["a.png", ".png", "..png", "..", "...", "a.", "x.y.webp", "noext", ".a.b"] {
        let by_std = std::path::Path::new(name)
            .extension()
            .map(|e| {
                let e = e.to_string_lossy().to_lowercase();
                e == "png" || e == "jpg" || e == "jpeg" || e == "webp"
            })
            .unwrap_or(false);
        assert_eq!(is_background_name(name), by_std, "{name}");
    }
}

#[test]
fn backgrounds_are_counted() {
    assert_eq!(count_backgrounds(&None), 0);
    assert_eq!(count_backgrounds(&Some(Vec::new())), 0);
    let names = vec!["1.png", "2.JPG", "notes.txt", "3.webp", ".png", "4.jpeg"];
    assert_eq!(count_backgrounds(&Some(names.iter().map(|s| s.to_string()).collect())), 4);
}

#[test]
fn settings_of_any_program_make_a_theme() {
    for marker in ["colors.toml", "ghostty.conf", "kitty.conf", "alacritty.toml", "hyprland.conf"] {
        assert!(holds_settings(&vec![file("/d", "readme.md"), file("/d", marker)]), "{marker}");
    }
    assert!(!holds_settings(&vec![file("/d", "readme.md"), file("/d", "preview.png")]));
    assert!(!holds_settings(&Vec::new()));
}

#[test]
fn from_local_builds_the_theme() {
    let mut e = entry("rose-pine", &["colors.toml", "light.mode", "preview.png"]);
    e.backgrounds = Some(vec!["a.png".to_string(), "b.txt".to_string(), "c.jpg".to_string()]);
    let t = Theme::from_local(&e, Some("nord")).unwrap();
    assert_eq!(t.name, "rose-pine");
    assert_eq!(t.display_name, "Rose Pine");
    assert_eq!(t.status, ThemeStatus::Installed);
    assert_eq!(t.local_path.as_deref(), Some("/themes/rose-pine"));
    assert_eq!(t.remote_url, None);
    assert_eq!(t.preview_path.as_deref(), Some("/themes/rose-pine/preview.png"));
    assert_eq!(t.preview_url, None);
    assert_eq!(t.colors.unwrap().background.as_deref(), Some("#000000"));
    assert!(t.is_light);
    assert_eq!(t.background_count, 2);
    assert_eq!(t.author, None);
    assert_eq!(t.stars, None);
    let active = Theme::from_local(&e, Some("rose-pine")).unwrap();
    assert_eq!(active.status, ThemeStatus::Active);
    let none = Theme::from_local(&e, None).unwrap();
    assert_eq!(none.status, ThemeStatus::Installed);
}

#[test]
fn from_local_with_a_senseless_palette_has_no_colors() {
    let mut e = entry("nord", &["colors.toml"]);
    e.colors = PaletteFile::Read(None);
    let t = Theme::from_local(&e, None).unwrap();
    assert!(t.colors.is_none());
    assert!(!t.is_light);
    assert_eq!(t.preview_path, None);
    assert_eq!(t.background_count, 0);
}

#[test]
fn from_local_says_why_an_entry_is_no_theme() {
    let mut nameless = entry("x", &["colors.toml"]);
    nameless.name = None;
    let e = Theme::from_local(&nameless, None).unwrap_err();
    assert_eq!(e, ScanError::InvalidDirectory);
    assert_eq!(e.message(), "Invalid theme directory");
    let mut unreadable = entry("x", &["colors.toml"]);
    unreadable.colors = PaletteFile::Unreadable;
    let e = Theme::from_local(&unreadable, None).unwrap_err();
    assert_eq!(e, ScanError::UnreadablePalette);
    assert_eq!(e.message(), "Could not read colors.toml");
    nameless.colors = PaletteFile::Unreadable;
    assert_eq!(Theme::from_local(&nameless, None).unwrap_err(), ScanError::InvalidDirectory);
}

#[test]
fn local_themes_are_filtered_and_sorted() {
    let mut not_dir = entry("file", &["colors.toml"]);
    not_dir.is_dir = false;
    let mut unreadable = entry("broken", &["colors.toml"]);
    unreadable.colors = PaletteFile::Unreadable;
    let entries = vec![
        entry("nord", &["kitty.conf"]),
        entry("current", &["colors.toml"]),
        entry("empty", &["readme.md"]),
        not_dir,
        unreadable,
        entry("ash", &["colors.toml"]),
        entry("Zed", &["hyprland.conf"]),
    ];
    let themes = load_local_themes(&entries, Some("ash"));
    let found: Vec<(&str, ThemeStatus)> =
        themes.iter().map(|t| (t.name.as_str(), t.status)).collect();
    assert_eq!(
        found,
        vec![
            ("Zed", ThemeStatus::Installed),
            ("ash", ThemeStatus::Active),
            ("nord", ThemeStatus::Installed)
        ]
    );
    let by_std = {
        let mut names = vec!["nord", "ash", "Zed"];
        names.sort();
        names
    };
    assert_eq!(themes.iter().map(|t| t.name.as_str()).collect::<Vec<_>>(), by_std);
    assert!(load_local_themes(&Vec::new(), None).is_empty());
}

use cruzalex_themes::app::App;
use cruzalex_themes::preview::{PreviewAction, FALLBACK_FONT_SIZE};
use cruzalex_themes::reconcile::{lookup_score, OperationKind, TaskResult};
use cruzalex_themes::theme::{Theme, ThemeStatus};
use image::DynamicImage;
use ratatui_image::picker::Picker;
use ratatui_image::protocol::StatefulProtocol;

fn remote(name: &str) -> Theme {
    Theme::from_remote(name, &format!("https://github.com/someone/{name}"), Some("someone"))
}

fn installed(name: &str) -> Theme {
    let mut t = remote(name);
    t.status = ThemeStatus::Installed;
    t.local_path = Some(format!("/themes/{name}"));
    t.preview_path = Some(format!("/themes/{name}/preview.png"));
    t.remote_url = None;
    t.preview_url = None;
    t
}

fn browser(themes: Vec<Theme>) -> App {
    let mut app = App::new(
        "/config".to_string(),
        "/config/themes".to_string(),
        "/cache".to_string(),
        None,
        themes,
        Vec::new(),
    );
    app.image_picker = Some(Picker::from_fontsize((8, 16)));
    app
}

fn picture() -> StatefulProtocol {
    Picker::from_fontsize((8, 16)).new_resize_protocol(DynamicImage::new_rgb8(2, 2))
}

fn status(app: &App) -> &str {
    app.status_message.as_deref().unwrap_or("")
}

fn decode_path(action: PreviewAction) -> String {
    match action {
        PreviewAction::Decode { path } => path,
        other => panic!("expected a decode, got {other:?}"),
    }
}

#[test]
fn install_success_reloads_and_keeps_remote_themes() {
    let mut alpha = installed("alpha");
    alpha.preview_path = None;
    let mut app = browser(vec![alpha, remote("beta"), remote("gamma")]);
    app.next();
    let request = app.install_theme().unwrap();
    assert_eq!(request.name, "beta");
    assert!(app.loading);
    let reloaded = vec![installed("alpha"), installed("beta")];
    let action = app.tick(TaskResult::InstallComplete("beta".to_string(), Ok(())), Some(reloaded));
    assert!(matches!(action, PreviewAction::Nothing));
    assert!(!app.loading);
    assert!(status(&app).contains("beta"));
    assert_eq!(status(&app), "Theme 'beta' installed!");
    let entries: Vec<(&str, ThemeStatus)> =
        app.themes.iter().map(|t| (t.name.as_str(), t.status)).collect();
    assert_eq!(
        entries,
        vec![
            ("alpha", ThemeStatus::Installed),
            ("beta", ThemeStatus::Installed),
            ("gamma", ThemeStatus::Available)
        ]
    );
    assert_eq!(app.filtered_themes, vec![0, 1, 2]);
    assert_eq!(app.list_state.selected(), Some(1));
}

#[test]
fn install_success_leaves_exactly_one_active_theme() {
    let mut current = installed("mars");
    current.status = ThemeStatus::Active;
    let mut app = browser(vec![remote("ash"), remote("wood"), remote("mars")]);
    app.current_theme = Some("mars".to_string());
    app.loading = true;
    let reloaded = vec![installed("ash"), current];
    app.tick(TaskResult::InstallComplete("ash".to_string(), Ok(())), Some(reloaded));
    let active: Vec<&str> = app
        .themes
        .iter()
        .filter(|t| t.status == ThemeStatus::Active)
        .map(|t| t.name.as_str())
        .collect();
    assert_eq!(active, vec!["mars"]);
    let names: Vec<&str> = app.themes.iter().map(|t| t.name.as_str()).collect();
    assert_eq!(names, vec!["ash", "mars", "wood"]);
}

#[test]
fn install_success_without_reload_keeps_the_registry() {
    let mut app = browser(vec![remote("ash")]);
    app.loading = true;
    app.tick(TaskResult::InstallComplete("ash".to_string(), Ok(())), None);
    assert!(!app.loading);
    assert_eq!(status(&app), "Theme 'ash' installed!");
    assert_eq!(app.themes.len(), 1);
    assert_eq!(app.themes[0].status, ThemeStatus::Available);
}

#[test]
fn install_failure_is_told_and_changes_no_theme() {
    let mut app = browser(vec![remote("ash")]);
    app.install_theme().unwrap();
    let action = app.tick(
        TaskResult::InstallComplete("ash".to_string(), Err("Git error: no route".to_string())),
        Some(vec![installed("ash")]),
    );
    assert!(matches!(action, PreviewAction::Nothing));
    assert!(!app.loading);
    assert_eq!(status(&app), "Install failed: Git error: no route");
    assert_eq!(app.themes.len(), 1);
    assert_eq!(app.themes[0].status, ThemeStatus::Available);
}

#[test]
fn install_drops_duplicate_remote_names() {
    let mut app = browser(vec![remote("wood"), remote("ash"), remote("wood"), remote("nord")]);
    app.tick(
        TaskResult::InstallComplete("ash".to_string(), Ok(())),
        Some(vec![installed("ash"), installed("nord")]),
    );
    let entries: Vec<(&str, ThemeStatus)> =
        app.themes.iter().map(|t| (t.name.as_str(), t.status)).collect();
    assert_eq!(
        entries,
        vec![
            ("ash", ThemeStatus::Installed),
            ("nord", ThemeStatus::Installed),
            ("wood", ThemeStatus::Available)
        ]
    );
}

#[test]
fn local_preview_is_decoded_once() {
    let mut app = browser(vec![installed("ash"), installed("nord")]);
    let path = decode_path(app.load_selected_preview());
    assert_eq!(path, "/themes/ash/preview.png");
    assert_eq!(app.current_preview_path.as_deref(), Some("/themes/ash/preview.png"));
    assert!(app.image_loading);
    assert!(app.current_preview_image.is_none());
    assert_eq!(app.decoding, vec!["/themes/ash/preview.png".to_string()]);
    assert!(matches!(app.load_selected_preview(), PreviewAction::Nothing));
    assert!(matches!(app.load_selected_preview(), PreviewAction::Nothing));
    assert_eq!(app.decoding.len(), 1);
    app.tick(TaskResult::ImageLoaded(path, Ok(picture())), None);
    assert!(app.current_preview_image.is_some());
    assert!(!app.image_loading);
    assert!(app.decoding.is_empty());
    assert!(matches!(app.load_selected_preview(), PreviewAction::Nothing));
}

#[test]
fn without_a_picker_nothing_is_decoded() {
    let mut app = browser(vec![installed("ash")]);
    app.image_picker = None;
    assert!(matches!(app.load_selected_preview(), PreviewAction::Nothing));
    assert_eq!(app.current_preview_path, None);
    assert!(!app.image_loading);
    assert!(app.decoding.is_empty());
}

#[test]
fn image_of_a_theme_left_behind_is_discarded() {
    let mut app = browser(vec![installed("ash"), installed("nord")]);
    let first = decode_path(app.load_selected_preview());
    let second = decode_path(app.next());
    assert_eq!(second, "/themes/nord/preview.png");
    app.tick(TaskResult::ImageLoaded(first, Ok(picture())), None);
    assert!(app.current_preview_image.is_none());
    assert_eq!(app.current_preview_path.as_deref(), Some("/themes/nord/preview.png"));
    assert!(app.image_loading);
    assert_eq!(app.decoding, vec!["/themes/nord/preview.png".to_string()]);
    app.tick(TaskResult::ImageLoaded(second, Ok(picture())), None);
    assert!(app.current_preview_image.is_some());
    assert!(!app.image_loading);
}

#[test]
fn coming_back_while_decoding_starts_no_second_decode() {
    let mut app = browser(vec![installed("ash"), installed("nord")]);
    let first = decode_path(app.load_selected_preview());
    decode_path(app.next());
    assert!(matches!(app.previous(), PreviewAction::Nothing));
    assert_eq!(app.current_preview_path.as_deref(), Some("/themes/ash/preview.png"));
    assert!(app.image_loading);
    assert_eq!(app.decoding.len(), 2);
    app.tick(TaskResult::ImageLoaded(first, Ok(picture())), None);
    assert!(app.current_preview_image.is_some());
    assert!(!app.image_loading);
    assert_eq!(app.decoding, vec!["/themes/nord/preview.png".to_string()]);
}

#[test]
fn failed_decode_clears_the_image_and_is_told() {
    let mut app = browser(vec![installed("ash")]);
    let path = decode_path(app.load_selected_preview());
    app.current_preview_image = Some(picture());
    app.tick(TaskResult::ImageLoaded(path, Err("Failed to decode image: bad".to_string())), None);
    assert!(app.current_preview_image.is_none());
    assert!(!app.image_loading);
    assert_eq!(status(&app), "Preview failed: Failed to decode image: bad");
}

#[test]
fn stale_failed_decode_is_silent() {
    let mut app = browser(vec![installed("ash"), installed("nord")]);
    let first = decode_path(app.load_selected_preview());
    decode_path(app.next());
    app.tick(TaskResult::ImageLoaded(first, Err("bad".to_string())), None);
    assert_eq!(status(&app), "Loading themes...");
    assert!(app.image_loading);
    assert_eq!(app.current_preview_path.as_deref(), Some("/themes/nord/preview.png"));
}

#[test]
fn remote_preview_is_probed_then_fetched_once() {
    let mut app = browser(vec![remote("gamma")]);
    match app.load_selected_preview() {
        PreviewAction::Probe { name, url } => {
            assert_eq!(name, "gamma");
            assert_eq!(url, "https://raw.githubusercontent.com/someone/gamma/main/preview.png");
        }
        other => panic!("expected a probe, got {other:?}"),
    }
    assert!(!app.image_loading);
    match app.preview_probed(None) {
        PreviewAction::Fetch { name, url } => {
            assert_eq!(name, "gamma");
            assert_eq!(url, "https://raw.githubusercontent.com/someone/gamma/main/preview.png");
        }
        other => panic!("expected a fetch, got {other:?}"),
    }
    assert!(app.image_loading);
    assert_eq!(app.current_preview_path, None);
    assert_eq!(app.fetching, vec!["gamma".to_string()]);
    assert!(matches!(app.load_selected_preview(), PreviewAction::Probe { .. }));
    assert!(matches!(app.preview_probed(None), PreviewAction::Nothing));
    assert!(matches!(app.preview_probed(None), PreviewAction::Nothing));
    assert_eq!(app.fetching, vec!["gamma".to_string()]);
    assert!(app.image_loading);
}

#[test]
fn cached_preview_is_decoded_without_fetch() {
    let mut app = browser(vec![remote("gamma")]);
    assert!(matches!(app.load_selected_preview(), PreviewAction::Probe { .. }));
    let path = decode_path(app.preview_probed(Some("/cache/gamma.png".to_string())));
    assert_eq!(path, "/cache/gamma.png");
    assert_eq!(app.current_preview_path.as_deref(), Some("/cache/gamma.png"));
    assert!(app.image_loading);
    assert!(app.fetching.is_empty());
    assert_eq!(app.themes[0].preview_path, None);
    assert!(matches!(
        app.preview_probed(Some("/cache/gamma.png".to_string())),
        PreviewAction::Nothing
    ));
    app.image_picker = None;
    app.decoding.clear();
    assert!(matches!(
        app.preview_probed(Some("/cache/gamma.png".to_string())),
        PreviewAction::Nothing
    ));
}

#[test]
fn probe_answer_for_a_theme_that_needs_none_is_ignored() {
    let mut app = browser(vec![installed("ash")]);
    assert!(matches!(app.preview_probed(None), PreviewAction::Nothing));
    assert!(matches!(app.preview_probed(Some("/x.png".to_string())), PreviewAction::Nothing));
    assert!(app.fetching.is_empty());
    assert!(app.decoding.is_empty());
    assert!(!app.image_loading);
    let mut empty = browser(Vec::new());
    assert!(matches!(empty.preview_probed(None), PreviewAction::Nothing));
}

#[test]
fn fetched_preview_of_the_selected_theme_is_decoded() {
    let mut app = browser(vec![remote("gamma"), remote("wood")]);
    app.load_selected_preview();
    app.preview_probed(None);
    let action = app.tick(
        TaskResult::PreviewDownloaded("gamma".to_string(), Ok("/cache/gamma.png".to_string())),
        None,
    );
    assert_eq!(decode_path(action), "/cache/gamma.png");
    assert_eq!(app.themes[0].preview_path.as_deref(), Some("/cache/gamma.png"));
    assert_eq!(app.current_preview_path.as_deref(), Some("/cache/gamma.png"));
    assert!(app.fetching.is_empty());
    assert!(app.image_loading);
}

#[test]
fn fetched_preview_of_a_theme_left_behind_is_only_stored() {
    let mut local = installed("wood");
    local.preview_path = None;
    let mut app = browser(vec![remote("gamma"), local]);
    app.load_selected_preview();
    assert!(matches!(app.preview_probed(None), PreviewAction::Fetch { .. }));
    assert!(matches!(app.next(), PreviewAction::Nothing));
    let loading = app.image_loading;
    let action = app.tick(
        TaskResult::PreviewDownloaded("gamma".to_string(), Ok("/cache/gamma.png".to_string())),
        None,
    );
    assert!(matches!(action, PreviewAction::Nothing));
    assert_eq!(app.themes[0].preview_path.as_deref(), Some("/cache/gamma.png"));
    assert_eq!(app.current_preview_path, None);
    assert!(app.current_preview_image.is_none());
    assert_eq!(app.image_loading, loading);
    assert!(app.fetching.is_empty());
}

#[test]
fn failed_preview_is_not_fetched_again() {
    let mut app = browser(vec![remote("gamma"), remote("wood")]);
    app.load_selected_preview();
    assert!(matches!(app.preview_probed(None), PreviewAction::Fetch { .. }));
    let action = app.tick(
        TaskResult::PreviewDownloaded("gamma".to_string(), Err("Preview not found".to_string())),
        None,
    );
    assert!(matches!(action, PreviewAction::Nothing));
    assert_eq!(app.themes[0].preview_url, None);
    assert!(app.themes[1].preview_url.is_some());
    assert!(!app.image_loading);
    assert!(app.fetching.is_empty());
    assert_eq!(status(&app), "Preview failed: Preview not found");
    for _ in 0..3 {
        assert!(matches!(app.load_selected_preview(), PreviewAction::Nothing));
        assert!(matches!(app.preview_probed(None), PreviewAction::Nothing));
    }
    assert!(matches!(app.next(), PreviewAction::Probe { .. }));
    assert!(matches!(app.previous(), PreviewAction::Nothing));
    assert!(app.fetching.is_empty());
}

#[test]
fn failed_preview_of_a_theme_left_behind_keeps_the_loading_sign() {
    let mut app = browser(vec![remote("gamma"), installed("nord")]);
    app.load_selected_preview();
    app.preview_probed(None);
    decode_path(app.next());
    assert!(app.image_loading);
    app.tick(TaskResult::PreviewDownloaded("gamma".to_string(), Err("timeout".to_string())), None);
    assert!(app.image_loading);
    assert_eq!(app.current_preview_path.as_deref(), Some("/themes/nord/preview.png"));
    assert_eq!(app.themes[0].preview_url, None);
}

#[test]
fn theme_without_preview_clears_what_is_shown() {
    let mut bare = installed("bare");
    bare.preview_path = None;
    let mut app = browser(vec![installed("ash"), bare]);
    let path = decode_path(app.load_selected_preview());
    app.tick(TaskResult::ImageLoaded(path, Ok(picture())), None);
    assert!(app.current_preview_image.is_some());
    assert!(matches!(app.next(), PreviewAction::Nothing));
    assert!(app.current_preview_image.is_none());
    assert_eq!(app.current_preview_path, None);
}

#[test]
fn stars_update_the_named_themes_only() {
    let mut app = browser(vec![remote("ash"), remote("nord"), remote("wood")]);
    app.themes[2].stars = Some(9);
    let before = app.filtered_themes.clone();
    let action = app.tick(
        TaskResult::StarsFetched(vec![
            ("ash".to_string(), 1),
            ("nord".to_string(), 7),
            ("ash".to_string(), 3),
            ("none".to_string(), 99),
        ]),
        None,
    );
    assert!(matches!(action, PreviewAction::Nothing));
    let stars: Vec<Option<u32>> = app.themes.iter().map(|t| t.stars).collect();
    assert_eq!(stars, vec![Some(3), Some(7), Some(9)]);
    assert_eq!(app.filtered_themes, before);
    assert_eq!(status(&app), "Loading themes...");
}

#[test]
fn lookup_score_takes_the_last_report() {
    let batch = vec![("a".to_string(), 1), ("b".to_string(), 2), ("a".to_string(), 3)];
    assert_eq!(lookup_score(&batch, "a"), Some(3));
    assert_eq!(lookup_score(&batch, "b"), Some(2));
    assert_eq!(lookup_score(&batch, "c"), None);
    assert_eq!(lookup_score(&Vec::new(), "a"), None);
}

#[test]
fn selected_is_compares_the_selected_name() {
    let mut app = browser(vec![remote("ash"), remote("nord")]);
    assert!(app.selected_is("ash"));
    assert!(!app.selected_is("nord"));
    app.next();
    assert!(app.selected_is("nord"));
    app.list_state.select(None);
    assert!(!app.selected_is("nord"));
}

#[test]
fn install_of_the_second_of_two_themes() {
    let mut alpha = installed("alpha");
    alpha.preview_path = None;
    let mut app = browser(vec![alpha, remote("beta")]);
    app.next();
    let request = app.install_theme().unwrap();
    assert_eq!(request.name, "beta");
    assert_eq!(request.url, "https://github.com/someone/beta");
    assert!(app.loading);
    let mut alpha = installed("alpha");
    alpha.preview_path = None;
    let mut beta = installed("beta");
    beta.preview_path = None;
    app.tick(
        TaskResult::InstallComplete("beta".to_string(), Ok(())),
        Some(vec![alpha, beta]),
    );
    assert_eq!(app.themes.len(), 2);
    assert_eq!(app.themes[0].name, "alpha");
    assert_eq!(app.themes[0].status, ThemeStatus::Installed);
    assert_eq!(app.themes[1].name, "beta");
    assert_eq!(app.themes[1].status, ThemeStatus::Installed);
    assert!(!app.loading);
    assert!(status(&app).contains("beta"));
}

#[test]
fn picker_is_taken_as_given() {
    let mut app = browser(vec![installed("ash")]);
    app.image_picker = None;
    assert!(matches!(app.load_selected_preview(), PreviewAction::Nothing));
    app.init_image_picker(Picker::from_fontsize(FALLBACK_FONT_SIZE));
    assert_eq!(app.image_picker.unwrap().font_size(), (8, 16));
    app.init_image_picker(Picker::from_fontsize((10, 20)));
    assert_eq!(app.image_picker.unwrap().font_size(), (10, 20));
    assert_eq!(app.themes.len(), 1);
    assert_eq!(decode_path(app.load_selected_preview()), "/themes/ash/preview.png");
}

#[test]
fn messages_tell_their_kind_and_target() {
    let install = TaskResult::InstallComplete("ash".to_string(), Ok(()));
    assert_eq!(install.kind(), OperationKind::InstallClone);
    assert_eq!(install.target(), Some("ash"));
    let image = TaskResult::ImageLoaded("/p.png".to_string(), Err("bad".to_string()));
    assert_eq!(image.kind(), OperationKind::PreviewAcquire);
    assert_eq!(image.target(), Some("/p.png"));
    let preview = TaskResult::PreviewDownloaded("nord".to_string(), Ok("/c/nord.png".to_string()));
    assert_eq!(preview.kind(), OperationKind::PreviewAcquire);
    assert_eq!(preview.target(), Some("nord"));
    let stars = TaskResult::StarsFetched(Vec::new());
    assert_eq!(stars.kind(), OperationKind::PopularityLookup);
    assert_eq!(stars.target(), None);
    let catalog = TaskResult::CatalogFetched(Err("offline".to_string()));
    assert_eq!(catalog.kind(), OperationKind::CatalogFetch);
    assert_eq!(catalog.target(), None);
}

#[test]
fn fetched_catalog_is_merged_by_the_reconciler() {
    let mut app = browser(vec![installed("nord")]);
    app.start_refresh();
    let action = app.tick(
        TaskResult::CatalogFetched(Ok(vec![remote("wood"), remote("nord"), remote("ash")])),
        None,
    );
    assert!(matches!(action, PreviewAction::Nothing));
    assert!(!app.loading);
    assert_eq!(status(&app), "Found 3 themes");
    let names: Vec<&str> = app.themes.iter().map(|t| t.name.as_str()).collect();
    assert_eq!(names, vec!["ash", "nord", "wood"]);
    assert_eq!(app.themes[1].status, ThemeStatus::Installed);
    app.start_refresh();
    app.tick(TaskResult::CatalogFetched(Err("offline".to_string())), None);
    assert!(!app.loading);
    assert_eq!(status(&app), "Failed to fetch: offline");
    assert_eq!(app.themes.len(), 3);
}

#[test]
fn cache_file_found_while_fetching_starts_no_decode() {
    let mut app = browser(vec![remote("gamma"), installed("nord")]);
    app.load_selected_preview();
    assert!(matches!(app.preview_probed(None), PreviewAction::Fetch { .. }));
    assert!(matches!(app.load_selected_preview(), PreviewAction::Probe { .. }));
    let action = app.preview_probed(Some("/cache/gamma.png".to_string()));
    assert!(matches!(action, PreviewAction::Nothing));
    assert!(app.decoding.is_empty());
    assert!(app.cache_decoding.is_empty());
    assert_eq!(app.fetching, vec!["gamma".to_string()]);
    assert_eq!(app.current_preview_path, None);
    assert!(app.image_loading);
    decode_path(app.next());
    assert!(matches!(app.previous(), PreviewAction::Probe { .. }));
    assert!(matches!(
        app.preview_probed(Some("/cache/gamma.png".to_string())),
        PreviewAction::Nothing
    ));
    assert_eq!(app.current_preview_path, None);
    assert!(app.image_loading);
    let action = app.tick(
        TaskResult::PreviewDownloaded("gamma".to_string(), Ok("/cache/gamma.png".to_string())),
        None,
    );
    assert_eq!(decode_path(action), "/cache/gamma.png");
    assert!(app.fetching.is_empty());
}

#[test]
fn cache_file_gone_while_decoding_starts_no_fetch() {
    let mut app = browser(vec![remote("gamma"), installed("nord")]);
    app.load_selected_preview();
    let path = decode_path(app.preview_probed(Some("/cache/gamma.png".to_string())));
    assert_eq!(
        app.cache_decoding,
        vec![("gamma".to_string(), "/cache/gamma.png".to_string())]
    );
    assert!(matches!(app.preview_probed(None), PreviewAction::Nothing));
    assert!(app.fetching.is_empty());
    assert_eq!(app.current_preview_path.as_deref(), Some("/cache/gamma.png"));
    decode_path(app.next());
    assert!(matches!(app.previous(), PreviewAction::Probe { .. }));
    assert!(matches!(app.preview_probed(None), PreviewAction::Nothing));
    assert!(matches!(
        app.preview_probed(Some("/cache/other.png".to_string())),
        PreviewAction::Nothing
    ));
    assert!(app.fetching.is_empty());
    assert_eq!(app.decoding.len(), 2);
    assert_eq!(app.current_preview_path.as_deref(), Some("/cache/gamma.png"));
    assert!(app.image_loading);
    app.tick(TaskResult::ImageLoaded(path, Ok(picture())), None);
    assert!(app.cache_decoding.is_empty());
    assert!(app.current_preview_image.is_some());
    assert!(!app.image_loading);
    assert!(matches!(app.preview_probed(None), PreviewAction::Fetch { .. }));
}

#[test]
fn theme_without_preview_takes_the_loading_sign_down() {
    let mut bare = installed("bare");
    bare.preview_path = None;
    let mut app = browser(vec![installed("ash"), bare]);
    let first = decode_path(app.load_selected_preview());
    assert!(app.image_loading);
    assert!(matches!(app.next(), PreviewAction::Nothing));
    assert!(!app.image_loading);
    assert_eq!(app.current_preview_path, None);
    app.tick(TaskResult::ImageLoaded(first, Ok(picture())), None);
    assert!(!app.image_loading);
    assert!(app.current_preview_image.is_none());
    app.image_loading = true;
    app.list_state.select(None);
    assert!(matches!(app.load_selected_preview(), PreviewAction::Nothing));
    assert!(!app.image_loading);
}

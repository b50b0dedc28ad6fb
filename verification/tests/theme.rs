use cruzalex_themes::catalog::{get_awesome_omarchy_themes, CURATED};
use cruzalex_themes::mode::{FilterMode, SortMode};
use cruzalex_themes::theme::{
    format_theme_name, github_clone_url_to_preview_url, repo_api_url, repo_path,
    themes_of_search, ColorPalette, GitHubOwner, GitHubRepo, GitHubSearchResult, Theme,
    ThemeStatus,
};

fn repo(name: &str, clone_url: &str, login: &str, stars: u32) -> GitHubRepo {
    GitHubRepo {
        name: name.to_string(),
        full_name: format!("{login}/{name}"),
        clone_url: clone_url.to_string(),
        html_url: clone_url.to_string(),
        description: None,
        stargazers_count: stars,
        owner: GitHubOwner { login: login.to_string() },
    }
}

#[test]
fn filter_mode_labels_and_cycle() {
    assert_eq!(FilterMode::All.label(), "All");
    assert_eq!(FilterMode::Installed.label(), "Installed");
    assert_eq!(FilterMode::Available.label(), "Available");
    assert_eq!(FilterMode::Favorites.label(), "Favorites");
    assert_eq!(FilterMode::All.next(), FilterMode::Installed);
    assert_eq!(FilterMode::Installed.next(), FilterMode::Available);
    assert_eq!(FilterMode::Available.next(), FilterMode::Favorites);
    assert_eq!(FilterMode::Favorites.next(), FilterMode::All);
}

#[test]
fn sort_mode_labels_and_cycle() {
    assert_eq!(SortMode::Name.label(), "Name");
    assert_eq!(SortMode::Stars.label(), "Stars");
    assert_eq!(SortMode::Name.next(), SortMode::Stars);
    assert_eq!(SortMode::Stars.next(), SortMode::Name);
}

#[test]
fn status_symbols_and_labels() {
    assert_eq!(ThemeStatus::Active.symbol(), "●");
    assert_eq!(ThemeStatus::Installed.symbol(), "○");
    assert_eq!(ThemeStatus::Available.symbol(), "◌");
    assert_eq!(ThemeStatus::Active.label(), "Active");
    assert_eq!(ThemeStatus::Installed.label(), "Installed");
    assert_eq!(ThemeStatus::Available.label(), "Available");
}

#[test]
fn display_name_capitalizes_words() {
    assert_eq!(format_theme_name("catppuccin-mocha"), "Catppuccin Mocha");
    assert_eq!(format_theme_name("nord"), "Nord");
    assert_eq!(format_theme_name("all-hallows-eve"), "All Hallows Eve");
    assert_eq!(format_theme_name("c64"), "C64");
    assert_eq!(format_theme_name("Already-Upper"), "Already Upper");
}

#[test]
fn display_name_edge_cases() {
    assert_eq!(format_theme_name(""), "");
    assert_eq!(format_theme_name("-"), " ");
    assert_eq!(format_theme_name("-a"), " A");
    assert_eq!(format_theme_name("a-"), "A ");
    assert_eq!(format_theme_name("a--b"), "A  B");
    assert_eq!(format_theme_name("ß-écru"), "SS Écru");
}

#[test]
fn repo_path_needs_exactly_one_github() {
    assert_eq!(repo_path("https://github.com/user/repo.git").as_deref(), Some("user/repo"));
    assert_eq!(repo_path("https://github.com/user/repo").as_deref(), Some("user/repo"));
    assert_eq!(repo_path("https://github.com/user/repo.git.git").as_deref(), Some("user/repo"));
    assert_eq!(repo_path("git@github.com/user/repo").as_deref(), Some("user/repo"));
    assert_eq!(repo_path("https://github.com/").as_deref(), Some(""));
    assert_eq!(repo_path("https://gitlab.com/user/repo"), None);
    assert_eq!(repo_path("https://github.com"), None);
    assert_eq!(repo_path("https://github.com/a/github.com/b"), None);
    assert_eq!(repo_path(""), None);
    assert_eq!(repo_path(".git"), None);
}

#[test]
fn preview_url_points_at_the_main_branch() {
    assert_eq!(
        github_clone_url_to_preview_url("https://github.com/user/repo.git").as_deref(),
        Some("https://raw.githubusercontent.com/user/repo/main/preview.png")
    );
    assert_eq!(
        github_clone_url_to_preview_url("https://github.com/dracula/omarchy").as_deref(),
        Some("https://raw.githubusercontent.com/dracula/omarchy/main/preview.png")
    );
    assert_eq!(github_clone_url_to_preview_url("https://example.org/user/repo.git"), None);
    assert_eq!(github_clone_url_to_preview_url("github.com/x/github.com/y"), None);
}

#[test]
fn api_url_or_complaint() {
    assert_eq!(
        repo_api_url("https://github.com/bjarneo/omarchy-ash-theme.git"),
        Ok("https://api.github.com/repos/bjarneo/omarchy-ash-theme".to_string())
    );
    assert_eq!(repo_api_url("https://example.org/x"), Err("Invalid GitHub URL".to_string()));
}

#[test]
fn from_remote_fills_every_field() {
    let t = Theme::from_remote("ayu-light", "https://github.com/fdidron/omarchy-ayu-light-theme", Some("fdidron"));
    assert_eq!(t.name, "ayu-light");
    assert_eq!(t.display_name, "Ayu Light");
    assert_eq!(t.status, ThemeStatus::Available);
    assert_eq!(t.local_path, None);
    assert_eq!(t.remote_url.as_deref(), Some("https://github.com/fdidron/omarchy-ayu-light-theme"));
    assert_eq!(t.preview_path, None);
    assert_eq!(
        t.preview_url.as_deref(),
        Some("https://raw.githubusercontent.com/fdidron/omarchy-ayu-light-theme/main/preview.png")
    );
    assert!(t.colors.is_none());
    assert!(t.is_light);
    assert_eq!(t.background_count, 0);
    assert_eq!(t.author.as_deref(), Some("fdidron"));
    assert_eq!(t.stars, None);
}

#[test]
fn from_remote_without_author_or_github() {
    let t = Theme::from_remote("nord", "https://example.org/nord.git", None);
    assert_eq!(t.author, None);
    assert_eq!(t.preview_url, None);
    assert!(!t.is_light);
    assert_eq!(t.remote_url.as_deref(), Some("https://example.org/nord.git"));
}

#[test]
fn from_github_strips_prefix_and_suffix() {
    let t = Theme::from_github(&repo("omarchy-ash-theme", "https://github.com/bjarneo/omarchy-ash-theme.git", "bjarneo", 42));
    assert_eq!(t.name, "ash");
    assert_eq!(t.display_name, "Ash");
    assert_eq!(t.status, ThemeStatus::Available);
    assert_eq!(t.remote_url.as_deref(), Some("https://github.com/bjarneo/omarchy-ash-theme.git"));
    assert_eq!(
        t.preview_url.as_deref(),
        Some("https://raw.githubusercontent.com/bjarneo/omarchy-ash-theme/main/preview.png")
    );
    assert_eq!(t.author.as_deref(), Some("bjarneo"));
    assert_eq!(t.stars, Some(42));
    assert!(!t.is_light);
    assert_eq!(t.local_path, None);
    assert_eq!(t.preview_path, None);
    assert_eq!(t.background_count, 0);
}

#[test]
fn from_github_keeps_the_whole_name_without_suffix() {
    let plain = |name: &str| Theme::from_github(&repo(name, "https://github.com/o/r", "o", 0)).name;
    assert_eq!(plain("omarchy-tycho"), "omarchy-tycho");
    assert_eq!(plain("ash-theme"), "ash");
    assert_eq!(plain("aetheria"), "aetheria");
    assert_eq!(plain("omarchy--theme"), "");
    assert_eq!(plain("omarchy-theme"), "omarchy-theme");
    assert_eq!(plain("-theme"), "");
    assert_eq!(plain("omarchy-light-theme"), "light");
}

#[test]
fn search_result_holds_repositories() {
    let result = GitHubSearchResult {
        items: vec![repo("omarchy-a-theme", "https://github.com/o/a", "o", 1)],
        total_count: 1,
    };
    let themes: Vec<Theme> = themes_of_search(&result);
    assert_eq!(themes.len(), result.total_count as usize);
    assert_eq!(themes[0].name, "a");
}

#[test]
fn curated_catalog_is_complete() {
    let themes = get_awesome_omarchy_themes();
    assert_eq!(themes.len(), 105);
    assert_eq!(themes.len(), CURATED.len());
    assert_eq!(themes[0].name, "aetheria");
    assert_eq!(themes[0].remote_url.as_deref(), Some("https://github.com/JJDizz1L/aetheria"));
    assert_eq!(themes[0].author.as_deref(), Some("JJDizz1L"));
    assert_eq!(themes[104].name, "wood");
    assert_eq!(themes[104].author.as_deref(), Some("bjarneo"));
    for (theme, entry) in themes.iter().zip(CURATED.iter()) {
        assert_eq!(theme.name, entry.0);
        assert_eq!(theme.remote_url.as_deref(), Some(entry.1));
        assert_eq!(theme.author.as_deref(), Some(entry.2));
        assert_eq!(theme.status, ThemeStatus::Available);
        assert!(theme.preview_url.is_some());
        assert_eq!(theme.stars, None);
    }
    let light: Vec<&str> = themes.iter().filter(|t| t.is_light).map(|t| t.name.as_str()).collect();
    assert_eq!(
        light,
        vec!["ayu-light", "flexoki-light", "github-light", "milkmatcha-light", "nagai-twilight", "solarized-light"]
    );
}

#[test]
fn clone_keeps_every_field() {
    let mut t = Theme::from_remote("nord", "https://github.com/o/nord", Some("o"));
    t.colors = Some(ColorPalette { accent: Some("#88c0d0".to_string()), ..ColorPalette::default() });
    t.stars = Some(3);
    t.preview_path = Some("/tmp/p.png".to_string());
    let c = t.clone();
    assert_eq!(c.name, t.name);
    assert_eq!(c.display_name, t.display_name);
    assert_eq!(c.status, t.status);
    assert_eq!(c.remote_url, t.remote_url);
    assert_eq!(c.preview_path, t.preview_path);
    assert_eq!(c.preview_url, t.preview_url);
    assert_eq!(c.colors.unwrap().accent.as_deref(), Some("#88c0d0"));
    assert_eq!(c.author, t.author);
    assert_eq!(c.stars, Some(3));
}

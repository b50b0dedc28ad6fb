//! Themes: what the browser knows of one theme, and how a theme is made from
//! a remote reference.

use crate::text::{
    chars_of, ends_with, find_from, match_at, matches_at, occurs_in, push_char, push_range,
    starts_with, text_of, uppercase, uppercase_of,
};
use vstd::prelude::*;
use vstd::string::*;

verus! {

/// Where a theme stands: in use, installed, or only known remotely.
#[derive(Debug, Clone, Copy, PartialEq, Eq, Structural)]
pub enum ThemeStatus {
    /// Theme is currently active
    Active,
    /// Theme is installed locally
    Installed,
    /// Theme is available for download
    Available,
}

impl ThemeStatus {
    /// The mark shown in front of a theme of this status.
    pub open spec fn symbol_text(self) -> Seq<char> {
        match self {
            ThemeStatus::Active => "●"@,
            ThemeStatus::Installed => "○"@,
            ThemeStatus::Available => "◌"@,
        }
    }

    /// The word shown for this status.
    pub open spec fn label_text(self) -> Seq<char> {
        match self {
            ThemeStatus::Active => "Active"@,
            ThemeStatus::Installed => "Installed"@,
            ThemeStatus::Available => "Available"@,
        }
    }

    /// Whether the theme is present on this machine.
    pub open spec fn is_local(self) -> bool {
        self != ThemeStatus::Available
    }

    pub fn symbol(&self) -> (r: &str)
        ensures
            r@ == self.symbol_text(),
    {
        match self {
            ThemeStatus::Active => "●",
            ThemeStatus::Installed => "○",
            ThemeStatus::Available => "◌",
        }
    }

    pub fn label(&self) -> (r: &str)
        ensures
            r@ == self.label_text(),
    {
        match self {
            ThemeStatus::Active => "Active",
            ThemeStatus::Installed => "Installed",
            ThemeStatus::Available => "Available",
        }
    }
}

/// The colours a theme declares, each as the text found in its palette file.
#[derive(Debug, Default)]
pub struct ColorPalette {
    pub foreground: Option<String>,
    pub background: Option<String>,
    pub accent: Option<String>,
    pub cursor: Option<String>,
    pub selection_background: Option<String>,
    pub selection_foreground: Option<String>,
    pub color0: Option<String>,
    pub color1: Option<String>,
    pub color2: Option<String>,
    pub color3: Option<String>,
    pub color4: Option<String>,
    pub color5: Option<String>,
    pub color6: Option<String>,
    pub color7: Option<String>,
    pub color8: Option<String>,
    pub color9: Option<String>,
    pub color10: Option<String>,
    pub color11: Option<String>,
    pub color12: Option<String>,
    pub color13: Option<String>,
    pub color14: Option<String>,
    pub color15: Option<String>,
}

/// A copy of an optional text.
pub fn copy_text(o: &Option<String>) -> (r: Option<String>)
    ensures
        r == *o,
{
    match o {
        Some(s) => Some(s.clone()),
        None => None,
    }
}

impl Clone for ColorPalette {
    fn clone(&self) -> (r: Self)
        ensures
            r == *self,
    {
        ColorPalette {
            foreground: copy_text(&self.foreground),
            background: copy_text(&self.background),
            accent: copy_text(&self.accent),
            cursor: copy_text(&self.cursor),
            selection_background: copy_text(&self.selection_background),
            selection_foreground: copy_text(&self.selection_foreground),
            color0: copy_text(&self.color0),
            color1: copy_text(&self.color1),
            color2: copy_text(&self.color2),
            color3: copy_text(&self.color3),
            color4: copy_text(&self.color4),
            color5: copy_text(&self.color5),
            color6: copy_text(&self.color6),
            color7: copy_text(&self.color7),
            color8: copy_text(&self.color8),
            color9: copy_text(&self.color9),
            color10: copy_text(&self.color10),
            color11: copy_text(&self.color11),
            color12: copy_text(&self.color12),
            color13: copy_text(&self.color13),
            color14: copy_text(&self.color14),
            color15: copy_text(&self.color15),
        }
    }
}

/// One theme of the catalog.
#[derive(Debug)]
pub struct Theme {
    /// Theme name (directory name)
    pub name: String,
    /// Display name (formatted)
    pub display_name: String,
    /// Theme status
    pub status: ThemeStatus,
    /// Local path (if installed)
    pub local_path: Option<String>,
    /// Remote URL (GitHub)
    pub remote_url: Option<String>,
    /// Preview image path (local file)
    pub preview_path: Option<String>,
    /// Preview image URL (for remote themes)
    pub preview_url: Option<String>,
    /// Color palette
    pub colors: Option<ColorPalette>,
    /// Is this a light theme?
    pub is_light: bool,
    /// Number of backgrounds available
    pub background_count: usize,
    /// Author/source
    pub author: Option<String>,
    /// GitHub stars (if from GitHub)
    pub stars: Option<u32>,
}

/// What an optional text holds.
pub open spec fn opt_text(o: Option<String>) -> Option<Seq<char>> {
    match o {
        Some(s) => Some(s@),
        None => None,
    }
}

/// What an optional borrowed text holds.
pub open spec fn opt_str(o: Option<&str>) -> Option<Seq<char>> {
    match o {
        Some(s) => Some(s@),
        None => None,
    }
}

/// A theme as a mathematical value: every text as its sequence of characters.
pub struct ThemeView {
    pub name: Seq<char>,
    pub display_name: Seq<char>,
    pub status: ThemeStatus,
    pub local_path: Option<Seq<char>>,
    pub remote_url: Option<Seq<char>>,
    pub preview_path: Option<Seq<char>>,
    pub preview_url: Option<Seq<char>>,
    pub colors: Option<ColorPalette>,
    pub is_light: bool,
    pub background_count: usize,
    pub author: Option<Seq<char>>,
    pub stars: Option<u32>,
}

impl ThemeView {
    /// The popularity by which themes are ranked: a missing score counts as
    /// zero.
    pub open spec fn score(self) -> u32 {
        match self.stars {
            Some(n) => n,
            None => 0,
        }
    }
}

impl View for Theme {
    type V = ThemeView;

    open spec fn view(&self) -> ThemeView {
        ThemeView {
            name: self.name@,
            display_name: self.display_name@,
            status: self.status,
            local_path: opt_text(self.local_path),
            remote_url: opt_text(self.remote_url),
            preview_path: opt_text(self.preview_path),
            preview_url: opt_text(self.preview_url),
            colors: self.colors,
            is_light: self.is_light,
            background_count: self.background_count,
            author: opt_text(self.author),
            stars: self.stars,
        }
    }
}

/// The themes of a list, each as a mathematical value.
pub open spec fn views(themes: Seq<Theme>) -> Seq<ThemeView> {
    themes.map_values(|t: Theme| t@)
}

impl Clone for Theme {
    fn clone(&self) -> (r: Self)
        ensures
            r == *self,
    {
        let colors = match &self.colors {
            Some(c) => Some(c.clone()),
            None => None,
        };
        Theme {
            name: self.name.clone(),
            display_name: self.display_name.clone(),
            status: self.status,
            local_path: copy_text(&self.local_path),
            remote_url: copy_text(&self.remote_url),
            preview_path: copy_text(&self.preview_path),
            preview_url: copy_text(&self.preview_url),
            colors,
            is_light: self.is_light,
            background_count: self.background_count,
            author: copy_text(&self.author),
            stars: self.stars,
        }
    }
}

/// The piece that one character of a theme's name contributes to its display
/// name: a hyphen becomes a space, the first character of a word is put in
/// upper case, every other character stays.
pub open spec fn display_piece(name: Seq<char>, i: int) -> Seq<char> {
    if name[i] == '-' {
        seq![' ']
    } else if i == 0 || name[i - 1] == '-' {
        uppercase_of(name[i])
    } else {
        seq![name[i]]
    }
}

/// The display name of the first `n` characters of a theme's name.
pub open spec fn display_prefix(name: Seq<char>, n: int) -> Seq<char>
    decreases n,
{
    if n <= 0 {
        Seq::<char>::empty()
    } else {
        display_prefix(name, n - 1) + display_piece(name, n - 1)
    }
}

/// The display name of a theme: its name with the hyphens turned into spaces
/// and each word capitalized.
pub open spec fn display_form(name: Seq<char>) -> Seq<char> {
    display_prefix(name, name.len() as int)
}

/// Format theme name for display
pub fn format_theme_name(name: &str) -> (r: String)
    ensures
        r@ == display_form(name@),
{
    let chars = chars_of(name);
    let mut out = String::new();
    let mut i: usize = 0;
    while i < chars.len()
        invariant
            i <= chars@.len(),
            chars@ == name@,
            out@ == display_prefix(name@, i as int),
        decreases chars@.len() - i,
    {
        let c = chars[i];
        if c == '-' {
            push_char(&mut out, ' ');
        } else if i == 0 || chars[i - 1] == '-' {
            let up = uppercase(c);
            push_range(&mut out, &up, 0, up.len());
        } else {
            push_char(&mut out, c);
        }
        i = i + 1;
    }
    out
}

/// A text from which every trailing `suffix` has been taken away.
pub open spec fn trimmed_end(s: Seq<char>, suffix: Seq<char>) -> Seq<char>
    decreases s.len(),
{
    if suffix.len() > 0 && ends_with(s, suffix) {
        trimmed_end(s.take(s.len() - suffix.len()), suffix)
    } else {
        s
    }
}

/// `needle` stands in `hay` at position `i` and nowhere else.
pub open spec fn sole_match(hay: Seq<char>, needle: Seq<char>, i: int) -> bool {
    &&& matches_at(hay, needle, i)
    &&& forall|j: int| matches_at(hay, needle, j) ==> j == i
}

/// The part of a repository's address that names the repository, owner
/// first: the address, without any trailing `.git`, must hold `github.com/`
/// exactly once, and the path is what follows it.
pub open spec fn repo_path_of(clone_url: Seq<char>) -> Option<Seq<char>> {
    let url = trimmed_end(clone_url, ".git"@);
    let marker = "github.com/"@;
    if exists|i: int| sole_match(url, marker, i) {
        let i = choose|i: int| sole_match(url, marker, i);
        Some(url.skip(i + marker.len()))
    } else {
        None
    }
}

/// Where a theme's preview image is fetched from, given the address its
/// repository is cloned from.
pub open spec fn preview_url_of(clone_url: Seq<char>) -> Option<Seq<char>> {
    match repo_path_of(clone_url) {
        Some(path) => Some("https://raw.githubusercontent.com/"@ + path + "/main/preview.png"@),
        None => None,
    }
}

/// Where the popularity of a repository is looked up, given the address it
/// is cloned from.
pub open spec fn api_url_of(clone_url: Seq<char>) -> Option<Seq<char>> {
    match repo_path_of(clone_url) {
        Some(path) => Some("https://api.github.com/repos/"@ + path),
        None => None,
    }
}

/// The length that is left of `chars` once every trailing `suffix` is gone.
fn trimmed_len(chars: &Vec<char>, suffix: &Vec<char>) -> (n: usize)
    ensures
        n <= chars@.len(),
        chars@.take(n as int) == trimmed_end(chars@, suffix@),
{
    let mut n: usize = chars.len();
    assert(chars@.take(n as int) =~= chars@);
    if suffix.len() == 0 {
        return n;
    }
    let ghost whole = chars@;
    loop
        invariant
            n <= chars@.len(),
            suffix@.len() > 0,
            whole == chars@,
            trimmed_end(whole, suffix@) == trimmed_end(whole.take(n as int), suffix@),
        decreases n,
    {
        if n < suffix.len() {
            return n;
        }
        let at: usize = n - suffix.len();
        let mut same = true;
        let mut k: usize = 0;
        while k < suffix.len()
            invariant
                k <= suffix.len(),
                at + suffix.len() == n,
                n <= chars.len(),
                same == (forall|j: int| 0 <= j < k ==> chars@[at + j] == suffix@[j]),
            decreases suffix.len() - k,
        {
            if chars[at + k] != suffix[k] {
                same = false;
            }
            k = k + 1;
        }
        let ghost cur = whole.take(n as int);
        proof {
            if same {
                assert(cur.subrange(at as int, at + suffix@.len()) =~= suffix@);
            } else {
                let j = choose|j: int| 0 <= j < suffix@.len() && chars@[at + j] != suffix@[j];
                assert(cur.subrange(at as int, at + suffix@.len())[j] == chars@[at + j]);
            }
            assert(same == ends_with(cur, suffix@));
        }
        if !same {
            return n;
        }
        proof {
            assert(cur.take(cur.len() - suffix@.len()) =~= whole.take(at as int));
        }
        n = at;
    }
}

/// The part of a repository's address that names the repository.
pub fn repo_path(clone_url: &str) -> (r: Option<String>)
    ensures
        opt_text(r) == repo_path_of(clone_url@),
{
    let all = chars_of(clone_url);
    let suffix = chars_of(".git");
    let marker = chars_of("github.com/");
    let n = trimmed_len(&all, &suffix);
    let mut url: Vec<char> = Vec::new();
    let mut k: usize = 0;
    while k < n
        invariant
            k <= n <= all@.len(),
            url@ == all@.take(k as int),
        decreases n - k,
    {
        url.push(all[k]);
        k = k + 1;
    }
    proof {
        reveal_strlit(".git");
        reveal_strlit("github.com/");
        assert(url@ == trimmed_end(clone_url@, ".git"@));
    }
    match find_from(&url, &marker, 0) {
        None => {
            assert forall|i: int| !sole_match(url@, marker@, i) by {
                if matches_at(url@, marker@, i) {
                    assert(0 <= i);
                }
            }
            None
        },
        Some(first) => {
            let after: usize = first + marker.len();
            match find_from(&url, &marker, after) {
                Some(second) => {
                    assert forall|i: int| !sole_match(url@, marker@, i) by {
                        if sole_match(url@, marker@, i) {
                            assert(first == i);
                            assert(second == i);
                        }
                    }
                    None
                },
                None => {
                    proof {
                        assert forall|j: int| matches_at(url@, marker@, j) implies j == first by {
                            if j < first {
                                assert(0 <= j);
                            } else if j > first {
                                if j < after {
                                    let d = j - first;
                                    assert(url@.subrange(first as int, first + marker@.len())[d]
                                        == url@[j]);
                                    assert(url@.subrange(j, j + marker@.len())[0] == url@[j]);
                                    assert(marker@[0] == 'g');
                                    assert(marker@[d] != 'g');
                                } else {
                                    assert(after <= j);
                                }
                            }
                        }
                        assert(sole_match(url@, marker@, first as int));
                        let i = choose|i: int| sole_match(url@, marker@, i);
                        assert(i == first);
                    }
                    let mut out = String::new();
                    push_range(&mut out, &url, after, url.len());
                    assert(url@.subrange(after as int, url@.len() as int) =~= url@.skip(
                        after as int,
                    ));
                    Some(out)
                },
            }
        },
    }
}

/// Convert GitHub clone URL to raw preview image URL
pub fn github_clone_url_to_preview_url(clone_url: &str) -> (r: Option<String>)
    ensures
        opt_text(r) == preview_url_of(clone_url@),
{
    match repo_path(clone_url) {
        Some(path) => Some(
            crate::text::phrase(
                "https://raw.githubusercontent.com/",
                path.as_str(),
                "/main/preview.png",
            ),
        ),
        None => None,
    }
}

/// Where the popularity of the repository at `github_url` is looked up, or
/// the complaint that the address is none of GitHub's.
pub fn repo_api_url(github_url: &str) -> (r: Result<String, String>)
    ensures
        match r {
            Ok(url) => api_url_of(github_url@) == Some(url@),
            Err(complaint) => api_url_of(github_url@) is None && complaint@
                == "Invalid GitHub URL"@,
        },
{
    match repo_path(github_url) {
        Some(path) => {
            let mut url = String::from_str("https://api.github.com/repos/");
            url.append(path.as_str());
            Ok(url)
        },
        None => Err(String::from_str("Invalid GitHub URL")),
    }
}

/// The theme that a remote reference describes.
pub open spec fn remote_theme(
    name: Seq<char>,
    url: Seq<char>,
    author: Option<Seq<char>>,
) -> ThemeView {
    ThemeView {
        name,
        display_name: display_form(name),
        status: ThemeStatus::Available,
        local_path: None,
        remote_url: Some(url),
        preview_path: None,
        preview_url: preview_url_of(url),
        colors: None,
        is_light: occurs_in("light"@, name),
        background_count: 0,
        author,
        stars: None,
    }
}

/// One repository, as a search of GitHub reports it.
#[derive(Debug)]
pub struct GitHubRepo {
    pub name: String,
    pub full_name: String,
    pub clone_url: String,
    pub html_url: String,
    pub description: Option<String>,
    pub stargazers_count: u32,
    pub owner: GitHubOwner,
}

/// The account a repository belongs to.
#[derive(Debug)]
pub struct GitHubOwner {
    pub login: String,
}

/// The answer to a search of GitHub.
#[derive(Debug)]
pub struct GitHubSearchResult {
    pub items: Vec<GitHubRepo>,
    pub total_count: u32,
}

/// The name of the theme that a repository of the given name holds: the
/// repository's name without a leading `omarchy-` and a trailing `-theme`.
/// Where the `-theme` is missing, the repository's whole name is the theme's.
pub open spec fn repo_theme_name(repo_name: Seq<char>) -> Seq<char> {
    let head = "omarchy-"@;
    let tail = "-theme"@;
    let rest = if starts_with(repo_name, head) {
        repo_name.skip(head.len() as int)
    } else {
        repo_name
    };
    if ends_with(rest, tail) {
        rest.take(rest.len() - tail.len())
    } else {
        repo_name
    }
}

/// The theme that a repository found by a search describes.
pub open spec fn github_theme(
    repo_name: Seq<char>,
    clone_url: Seq<char>,
    login: Seq<char>,
    stars: u32,
) -> ThemeView {
    ThemeView {
        name: repo_theme_name(repo_name),
        display_name: display_form(repo_theme_name(repo_name)),
        status: ThemeStatus::Available,
        local_path: None,
        remote_url: Some(clone_url),
        preview_path: None,
        preview_url: preview_url_of(clone_url),
        colors: None,
        is_light: false,
        background_count: 0,
        author: Some(login),
        stars: Some(stars),
    }
}

impl Theme {
    /// Create a theme from remote data (name and URL)
    pub fn from_remote(name: &str, url: &str, author: Option<&str>) -> (r: Self)
        ensures
            r@ == remote_theme(name@, url@, opt_str(author)),
    {
        let display_name = format_theme_name(name);
        let preview_url = github_clone_url_to_preview_url(url);
        let author = match author {
            Some(a) => Some(String::from_str(a)),
            None => None,
        };
        let is_light = crate::text::contains_text(name, "light");
        Theme {
            name: String::from_str(name),
            display_name,
            status: ThemeStatus::Available,
            local_path: None,
            remote_url: Some(String::from_str(url)),
            preview_path: None,
            preview_url,
            colors: None,
            is_light,
            background_count: 0,
            author,
            stars: None,
        }
    }

    /// Create a theme from GitHub API data (fallback)
    pub fn from_github(repo: &GitHubRepo) -> (r: Self)
        ensures
            r@ == github_theme(
                repo.name@,
                repo.clone_url@,
                repo.owner.login@,
                repo.stargazers_count,
            ),
    {
        let whole = chars_of(repo.name.as_str());
        let head = chars_of("omarchy-");
        let tail = chars_of("-theme");
        let from: usize = if match_at(&whole, &head, 0) {
            head.len()
        } else {
            0
        };
        let mut rest: Vec<char> = Vec::new();
        let mut k: usize = from;
        while k < whole.len()
            invariant
                from <= k <= whole@.len(),
                rest@ == whole@.subrange(from as int, k as int),
            decreases whole@.len() - k,
        {
            rest.push(whole[k]);
            k = k + 1;
        }
        assert(whole@.skip(0) =~= whole@);
        let name = if rest.len() >= tail.len() && match_at(&rest, &tail, rest.len() - tail.len()) {
            let mut s = String::new();
            push_range(&mut s, &rest, 0, rest.len() - tail.len());
            s
        } else {
            text_of(&whole)
        };
        let display_name = format_theme_name(name.as_str());
        let preview_url = github_clone_url_to_preview_url(repo.clone_url.as_str());
        Theme {
            name,
            display_name,
            status: ThemeStatus::Available,
            local_path: None,
            remote_url: Some(repo.clone_url.clone()),
            preview_path: None,
            preview_url,
            colors: None,
            is_light: false,
            background_count: 0,
            author: Some(repo.owner.login.clone()),
            stars: Some(repo.stargazers_count),
        }
    }
}

/// The themes that a search of GitHub found, in the order of its answer.
pub fn themes_of_search(result: &GitHubSearchResult) -> (r: Vec<Theme>)
    ensures
        r@.len() == result.items@.len(),
        forall|i: int|
            0 <= i < r@.len() ==> #[trigger] r@[i]@ == github_theme(
                result.items@[i].name@,
                result.items@[i].clone_url@,
                result.items@[i].owner.login@,
                result.items@[i].stargazers_count,
            ),
{
    let mut themes: Vec<Theme> = Vec::new();
    let mut i: usize = 0;
    while i < result.items.len()
        invariant
            i <= result.items@.len(),
            themes@.len() == i,
            forall|k: int|
                0 <= k < i ==> #[trigger] themes@[k]@ == github_theme(
                    result.items@[k].name@,
                    result.items@[k].clone_url@,
                    result.items@[k].owner.login@,
                    result.items@[k].stargazers_count,
                ),
        decreases result.items@.len() - i,
    {
        themes.push(Theme::from_github(&result.items[i]));
        i = i + 1;
    }
    themes
}

} // verus!

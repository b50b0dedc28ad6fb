//! The themes on this machine: how the scan of the themes directory becomes
//! the local part of the registry.
//!
//! The scan itself is the caller's work. It reports plain facts of each
//! entry of the directory; which entries are themes, and what kind of
//! themes, is decided here.

use crate::registry::{by_name, sort_by_name};
use crate::text::{chars_of, lowercase, lowercase_of, push_range};
use crate::theme::{
    display_form, format_theme_name, opt_str, opt_text, views, ColorPalette, Theme, ThemeStatus,
    ThemeView,
};
use vstd::prelude::*;
use vstd::string::*;

verus! {

/// A file or directory that exists in a theme's directory.
#[derive(Debug)]
pub struct FoundFile {
    /// Its name within the directory.
    pub name: String,
    /// Its whole path.
    pub path: String,
}

/// What became of a theme's palette file.
#[derive(Debug)]
pub enum PaletteFile {
    /// The directory holds none.
    Missing,
    /// It exists and could not be read.
    Unreadable,
    /// It was read; the palette is missing where its text made no sense.
    Read(Option<ColorPalette>),
}

/// What the scan reports of one entry of the themes directory.
#[derive(Debug)]
pub struct LocalEntry {
    /// The entry's path.
    pub path: String,
    /// The last component of the path, if it has one.
    pub name: Option<String>,
    /// Whether the entry is a directory.
    pub is_dir: bool,
    /// What exists directly in the directory.
    pub files: Vec<FoundFile>,
    /// The palette file.
    pub colors: PaletteFile,
    /// The names of what the directory of backgrounds holds, if there is
    /// such a directory and it could be read.
    pub backgrounds: Option<Vec<String>>,
}

/// Why an entry of the themes directory is no theme.
#[derive(Debug, Clone, Copy, PartialEq, Eq, Structural)]
pub enum ScanError {
    /// The path has no last component to name the theme by.
    InvalidDirectory,
    /// The palette file exists and could not be read.
    UnreadablePalette,
}

impl ScanError {
    /// Says in words what went wrong.
    pub fn message(&self) -> (r: String)
        ensures
            r@ == match *self {
                ScanError::InvalidDirectory => "Invalid theme directory"@,
                ScanError::UnreadablePalette => "Could not read colors.toml"@,
            },
    {
        match self {
            ScanError::InvalidDirectory => String::from_str("Invalid theme directory"),
            ScanError::UnreadablePalette => String::from_str("Could not read colors.toml"),
        }
    }
}

/// The name of the entry that points at the theme in use, which is no theme
/// itself.
pub open spec fn current_link() -> Seq<char> {
    "current"@
}

/// Some file of the list has the given name.
pub open spec fn has_file(files: Seq<FoundFile>, name: Seq<char>) -> bool {
    exists|i: int| 0 <= i < files.len() && #[trigger] files[i].name@ == name
}

/// File `i` is the first one of the list with the given name.
pub open spec fn is_first_file(files: Seq<FoundFile>, name: Seq<char>, i: int) -> bool {
    &&& 0 <= i < files.len()
    &&& files[i].name@ == name
    &&& forall|j: int| 0 <= j < i ==> #[trigger] files[j].name@ != name
}

/// The path of the first file of the given name, if there is one.
pub open spec fn file_path(files: Seq<FoundFile>, name: Seq<char>) -> Option<Seq<char>> {
    if has_file(files, name) {
        Some(files[choose|i: int| is_first_file(files, name, i)].path@)
    } else {
        None
    }
}

/// The preview image of a theme's directory: the first that exists of
/// `preview.png`, `preview.jpg`, `preview.jpeg` and `screenshot.png`.
pub open spec fn preview_of(files: Seq<FoundFile>) -> Option<Seq<char>> {
    if has_file(files, "preview.png"@) {
        file_path(files, "preview.png"@)
    } else if has_file(files, "preview.jpg"@) {
        file_path(files, "preview.jpg"@)
    } else if has_file(files, "preview.jpeg"@) {
        file_path(files, "preview.jpeg"@)
    } else {
        file_path(files, "screenshot.png"@)
    }
}

/// The directory holds the settings of at least one program, and so is a
/// theme.
pub open spec fn has_settings(files: Seq<FoundFile>) -> bool {
    ||| has_file(files, "colors.toml"@)
    ||| has_file(files, "ghostty.conf"@)
    ||| has_file(files, "kitty.conf"@)
    ||| has_file(files, "alacritty.toml"@)
    ||| has_file(files, "hyprland.conf"@)
}

/// Position `i` holds the last dot of the name.
pub open spec fn is_last_dot(name: Seq<char>, i: int) -> bool {
    &&& 0 <= i < name.len()
    &&& name[i] == '.'
    &&& forall|j: int| i < j < name.len() ==> name[j] != '.'
}

/// The extension of a file's name: what follows its last dot. A name without
/// a dot has none, nor has a name whose only dot is its first character, nor
/// the name `..`.
pub open spec fn extension_of(name: Seq<char>) -> Option<Seq<char>> {
    if name == ".."@ {
        None
    } else if exists|i: int| 0 < i && is_last_dot(name, i) {
        let i = choose|i: int| 0 < i && is_last_dot(name, i);
        Some(name.skip(i + 1))
    } else {
        None
    }
}

/// The file is an image that can serve as a background, going by its
/// extension, letter case aside.
pub open spec fn is_background(name: Seq<char>) -> bool {
    match extension_of(name) {
        Some(ext) => {
            let e = lowercase_of(ext);
            e == "png"@ || e == "jpg"@ || e == "jpeg"@ || e == "webp"@
        },
        None => false,
    }
}

/// How many of the first `n` names are backgrounds.
pub open spec fn backgrounds_among(names: Seq<Seq<char>>, n: int) -> nat
    decreases n,
{
    if n <= 0 {
        0
    } else if is_background(names[n - 1]) {
        backgrounds_among(names, n - 1) + 1
    } else {
        backgrounds_among(names, n - 1)
    }
}

/// How many backgrounds a theme has.
pub open spec fn background_count_of(backgrounds: Option<Vec<String>>) -> nat {
    match backgrounds {
        Some(names) => backgrounds_among(crate::app::texts(names@), names@.len() as int),
        None => 0,
    }
}

/// The palette that a palette file gave.
pub open spec fn palette_of(colors: PaletteFile) -> Option<ColorPalette> {
    match colors {
        PaletteFile::Read(p) => p,
        _ => None,
    }
}

/// The theme that an entry of the themes directory holds, given its name.
pub open spec fn local_theme(entry: LocalEntry, name: Seq<char>, current: Option<Seq<char>>) -> ThemeView {
    ThemeView {
        name,
        display_name: display_form(name),
        status: if current == Some(name) {
            ThemeStatus::Active
        } else {
            ThemeStatus::Installed
        },
        local_path: Some(entry.path@),
        remote_url: None,
        preview_path: preview_of(entry.files@),
        preview_url: None,
        colors: palette_of(entry.colors),
        is_light: has_file(entry.files@, "light.mode"@),
        background_count: background_count_of(entry.backgrounds) as usize,
        author: None,
        stars: None,
    }
}

/// What an entry of the themes directory is: a theme, or the reason why it
/// is none.
pub open spec fn scanned(entry: LocalEntry, current: Option<Seq<char>>) -> Result<
    ThemeView,
    ScanError,
> {
    match entry.name {
        None => Err(ScanError::InvalidDirectory),
        Some(name) => if entry.colors is Unreadable {
            Err(ScanError::UnreadablePalette)
        } else {
            Ok(local_theme(entry, name@, current))
        },
    }
}

/// The entry counts as a theme: it is a directory other than the link to
/// the theme in use, holds the settings of some program, and is sound.
pub open spec fn is_theme(entry: LocalEntry, current: Option<Seq<char>>) -> bool {
    &&& entry.is_dir
    &&& opt_text(entry.name) != Some(current_link())
    &&& has_settings(entry.files@)
    &&& scanned(entry, current) is Ok
}

/// The themes among the first `n` entries of the themes directory, in the
/// order of the scan.
pub open spec fn themes_among(entries: Seq<LocalEntry>, current: Option<Seq<char>>, n: int) -> Seq<
    ThemeView,
>
    decreases n,
{
    if n <= 0 {
        Seq::<ThemeView>::empty()
    } else if is_theme(entries[n - 1], current) {
        themes_among(entries, current, n - 1).push(scanned(entries[n - 1], current).unwrap())
    } else {
        themes_among(entries, current, n - 1)
    }
}

/// The position of the first file of the given name.
pub fn find_file(files: &Vec<FoundFile>, name: &str) -> (r: Option<usize>)
    ensures
        match r {
            Some(i) => is_first_file(files@, name@, i as int) && has_file(files@, name@)
                && file_path(files@, name@) == Some(files@[i as int].path@),
            None => !has_file(files@, name@) && file_path(files@, name@) is None,
        },
{
    let mut i: usize = 0;
    while i < files.len()
        invariant
            i <= files@.len(),
            forall|k: int| 0 <= k < i ==> #[trigger] files@[k].name@ != name@,
        decreases files@.len() - i,
    {
        if files[i].name.as_str().eq(name) {
            proof {
                assert(is_first_file(files@, name@, i as int));
            }
            return Some(i);
        }
        i = i + 1;
    }
    None
}

/// Find preview image in theme directory
pub fn find_preview_image(files: &Vec<FoundFile>) -> (r: Option<String>)
    ensures
        opt_text(r) == preview_of(files@),
{
    let first = find_file(files, "preview.png");
    let found = if first.is_some() {
        first
    } else {
        let second = find_file(files, "preview.jpg");
        if second.is_some() {
            second
        } else {
            let third = find_file(files, "preview.jpeg");
            if third.is_some() {
                third
            } else {
                find_file(files, "screenshot.png")
            }
        }
    };
    match found {
        Some(i) => Some(files[i].path.clone()),
        None => None,
    }
}

/// Whether a file of this name is an image that can serve as a background.
pub fn is_background_name(name: &str) -> (r: bool)
    ensures
        r == is_background(name@),
{
    let chars = chars_of(name);
    proof {
        reveal_strlit("..");
    }
    if chars.len() == 2 && chars[0] == '.' && chars[1] == '.' {
        assert(chars@ =~= ".."@);
        return false;
    }
    let mut i: usize = chars.len();
    while i > 0 && chars[i - 1] != '.'
        invariant
            i <= chars@.len(),
            forall|j: int| i <= j < chars@.len() ==> chars@[j] != '.',
        decreases i,
    {
        i = i - 1;
    }
    if i <= 1 {
        return false;
    }
    let dot: usize = i - 1;
    proof {
        assert(is_last_dot(name@, dot as int));
    }
    let mut ext = String::new();
    push_range(&mut ext, &chars, i, chars.len());
    let lower = lowercase(ext.as_str());
    lower.as_str().eq("png") || lower.as_str().eq("jpg") || lower.as_str().eq("jpeg")
        || lower.as_str().eq("webp")
}

/// Count background images in theme
pub fn count_backgrounds(backgrounds: &Option<Vec<String>>) -> (r: usize)
    ensures
        r == background_count_of(*backgrounds),
{
    match backgrounds {
        None => 0,
        Some(names) => {
            let mut count: usize = 0;
            let mut i: usize = 0;
            while i < names.len()
                invariant
                    i <= names@.len(),
                    count <= i,
                    count == backgrounds_among(crate::app::texts(names@), i as int),
                decreases names@.len() - i,
            {
                if is_background_name(names[i].as_str()) {
                    count = count + 1;
                }
                i = i + 1;
            }
            count
        },
    }
}

/// Whether the directory holds the settings of at least one program.
pub fn holds_settings(files: &Vec<FoundFile>) -> (r: bool)
    ensures
        r == has_settings(files@),
{
    find_file(files, "colors.toml").is_some() || find_file(files, "ghostty.conf").is_some()
        || find_file(files, "kitty.conf").is_some() || find_file(files, "alacritty.toml").is_some()
        || find_file(files, "hyprland.conf").is_some()
}

impl Theme {
    /// Create a new theme from a local directory
    pub fn from_local(entry: &LocalEntry, current_theme: Option<&str>) -> (r: Result<
        Self,
        ScanError,
    >)
        ensures
            match r {
                Ok(t) => scanned(*entry, opt_str(current_theme)) == Ok::<ThemeView, ScanError>(t@),
                Err(e) => scanned(*entry, opt_str(current_theme)) == Err::<ThemeView, ScanError>(e),
            },
    {
        let name: String = match &entry.name {
            Some(n) => n.clone(),
            None => {
                return Err(ScanError::InvalidDirectory);
            },
        };
        let display_name = format_theme_name(name.as_str());
        let status = match current_theme {
            Some(current) => if current.eq(name.as_str()) {
                ThemeStatus::Active
            } else {
                ThemeStatus::Installed
            },
            None => ThemeStatus::Installed,
        };
        let colors = match &entry.colors {
            PaletteFile::Missing => None,
            PaletteFile::Unreadable => {
                return Err(ScanError::UnreadablePalette);
            },
            PaletteFile::Read(p) => match p {
                Some(palette) => Some(palette.clone()),
                None => None,
            },
        };
        let preview_path = find_preview_image(&entry.files);
        let is_light = find_file(&entry.files, "light.mode").is_some();
        let background_count = count_backgrounds(&entry.backgrounds);
        Ok(
            Theme {
                name,
                display_name,
                status,
                local_path: Some(entry.path.clone()),
                remote_url: None,
                preview_path,
                preview_url: None,
                colors,
                is_light,
                background_count,
                author: None,
                stars: None,
            },
        )
    }
}

/// Load all local themes: the themes among the scanned entries of the themes
/// directory, sorted by name.
pub fn load_local_themes(entries: &Vec<LocalEntry>, current_theme: Option<&str>) -> (r: Vec<Theme>)
    ensures
        views(r@) == by_name(
            themes_among(entries@, opt_str(current_theme), entries@.len() as int),
        ),
{
    let mut themes: Vec<Theme> = Vec::new();
    let mut i: usize = 0;
    while i < entries.len()
        invariant
            i <= entries@.len(),
            views(themes@) == themes_among(entries@, opt_str(current_theme), i as int),
        decreases entries@.len() - i,
    {
        let entry = &entries[i];
        let is_link = match &entry.name {
            Some(n) => n.as_str().eq("current"),
            None => false,
        };
        if entry.is_dir && !is_link && holds_settings(&entry.files) {
            match Theme::from_local(entry, current_theme) {
                Ok(theme) => {
                    themes.push(theme);
                },
                Err(_) => {},
            }
        }
        i = i + 1;
    }
    sort_by_name(&themes)
}

} // verus!

//! What the display shows of the state, as plain values: the header, the
//! rows of the list, the state of the preview panel, and the colours of a
//! palette.
//!
//! Drawing is the caller's work; what is drawn is decided here.

use crate::app::{App, AppView};
use crate::text::{chars_of, decimal_of, phrase, push_decimal};
use crate::theme::{ColorPalette, ThemeStatus, ThemeView};
use vstd::prelude::*;
use vstd::string::*;

verus! {

/// What the preview panel shows.
#[derive(Debug, Clone, Copy, PartialEq, Eq, Structural)]
pub enum PreviewPanel {
    /// No theme is selected.
    NoTheme,
    /// The selected theme has no preview, and the panel has no room for one.
    NoPreview,
    /// The decoded image.
    Image,
    /// The image is on its way.
    Loading,
    /// The image is yet to be fetched.
    Fetching,
    /// The theme has an image that cannot be shown.
    Unavailable,
}

impl PreviewPanel {
    /// The words that stand in for the image.
    pub fn notice(&self) -> (r: &str)
        ensures
            r@ == match *self {
                PreviewPanel::NoTheme => "No theme selected"@,
                PreviewPanel::NoPreview => "No preview available"@,
                PreviewPanel::Image => ""@,
                PreviewPanel::Loading => "Loading preview..."@,
                PreviewPanel::Fetching => "Fetching preview..."@,
                PreviewPanel::Unavailable => "Preview unavailable"@,
            },
    {
        match self {
            PreviewPanel::NoTheme => "No theme selected",
            PreviewPanel::NoPreview => "No preview available",
            PreviewPanel::Image => "",
            PreviewPanel::Loading => "Loading preview...",
            PreviewPanel::Fetching => "Fetching preview...",
            PreviewPanel::Unavailable => "Preview unavailable",
        }
    }
}

/// One row of the list, as the texts it is made of.
#[derive(Debug)]
pub struct ListRow {
    /// The theme's status, by which the row is coloured.
    pub status: ThemeStatus,
    /// Whether the theme is a favorite.
    pub favorite: bool,
    /// The mark of a favorite, or as much empty space.
    pub favorite_mark: String,
    /// The mark of the status.
    pub status_mark: String,
    /// The theme's display name.
    pub name: String,
    /// The tag of a light theme, or nothing.
    pub light_mark: String,
    /// The number of backgrounds, or nothing where there are none.
    pub backgrounds_mark: String,
    /// The number of stars, or nothing where it is unknown.
    pub stars_mark: String,
}

/// The row shows the theme.
pub open spec fn row_shows(row: ListRow, t: ThemeView, favorite: bool) -> bool {
    &&& row.status == t.status
    &&& row.favorite == favorite
    &&& row.favorite_mark@ == if favorite {
        "★ "@
    } else {
        "  "@
    }
    &&& row.status_mark@ == t.status.symbol_text() + " "@
    &&& row.name@ == t.display_name
    &&& row.light_mark@ == if t.is_light {
        " [light]"@
    } else {
        ""@
    }
    &&& row.backgrounds_mark@ == if t.background_count > 0 {
        " ("@ + decimal_of(t.background_count as nat) + " bg)"@
    } else {
        ""@
    }
    &&& row.stars_mark@ == match t.stars {
        Some(n) => " ⭐"@ + decimal_of(n as nat),
        None => ""@,
    }
}

impl AppView {
    /// What the preview panel shows.
    pub open spec fn preview_panel(self) -> PreviewPanel {
        match self.selected_theme() {
            None => PreviewPanel::NoTheme,
            Some(t) => if t.preview_path is None && t.preview_url is None && !self.image_loading {
                PreviewPanel::NoPreview
            } else if self.current_preview_image is Some {
                PreviewPanel::Image
            } else if self.image_loading {
                PreviewPanel::Loading
            } else if t.preview_url is Some && t.preview_path is None {
                PreviewPanel::Fetching
            } else {
                PreviewPanel::Unavailable
            },
        }
    }

    /// The title in the header.
    pub open spec fn header_title(self) -> Seq<char> {
        " cruzAlex Themes | "@ + decimal_of(self.filtered_themes.len()) + " themes | Filter: "@
            + self.filter_mode.label_text() + " | Sort: "@ + self.sort_mode.label_text() + " "@
    }
}

impl App {
    /// What the preview panel shows.
    pub fn preview_panel(&self) -> (r: PreviewPanel)
        ensures
            r == self@.preview_panel(),
    {
        match self.selected_theme() {
            None => PreviewPanel::NoTheme,
            Some(t) => {
                if t.preview_path.is_none() && t.preview_url.is_none() && !self.image_loading {
                    PreviewPanel::NoPreview
                } else if self.current_preview_image.is_some() {
                    PreviewPanel::Image
                } else if self.image_loading {
                    PreviewPanel::Loading
                } else if t.preview_url.is_some() && t.preview_path.is_none() {
                    PreviewPanel::Fetching
                } else {
                    PreviewPanel::Unavailable
                }
            },
        }
    }

    /// The title in the header.
    pub fn header_title(&self) -> (r: String)
        ensures
            r@ == self@.header_title(),
    {
        let mut out = String::from_str(" cruzAlex Themes | ");
        push_decimal(&mut out, self.filtered_themes.len() as u64);
        out.append(" themes | Filter: ");
        out.append(self.filter_mode.label());
        out.append(" | Sort: ");
        out.append(self.sort_mode.label());
        out.append(" ");
        out
    }

    /// The sign in the header that work is under way, or nothing.
    pub fn loading_notice(&self) -> (r: &str)
        ensures
            r@ == if self.loading {
                " [Loading...]"@
            } else {
                ""@
            },
    {
        if self.loading {
            " [Loading...]"
        } else {
            ""
        }
    }

    /// The line in which the search is typed.
    pub fn search_prompt(&self) -> (r: String)
        ensures
            r@ == "Search: "@ + self@.search_query + "|"@,
    {
        phrase("Search: ", self.search_query.as_str(), "|")
    }

    /// The row that shows the theme at position `i` of the registry.
    pub fn row_of(&self, i: usize) -> (row: ListRow)
        requires
            i < self.themes@.len(),
        ensures
            row_shows(row, self@.themes[i as int], self@.favorites.contains(self@.themes[i as int].name)),
    {
        let t = &self.themes[i];
        let favorite = self.is_favorite(t.name.as_str());
        let mut status_mark = String::from_str(t.status.symbol());
        status_mark.append(" ");
        let backgrounds_mark = if t.background_count > 0 {
            let mut s = String::from_str(" (");
            push_decimal(&mut s, t.background_count as u64);
            s.append(" bg)");
            s
        } else {
            String::from_str("")
        };
        let stars_mark = match t.stars {
            Some(n) => {
                let mut s = String::from_str(" ⭐");
                push_decimal(&mut s, n as u64);
                s
            },
            None => String::from_str(""),
        };
        ListRow {
            status: t.status,
            favorite,
            favorite_mark: if favorite {
                String::from_str("★ ")
            } else {
                String::from_str("  ")
            },
            status_mark,
            name: t.display_name.clone(),
            light_mark: if t.is_light {
                String::from_str(" [light]")
            } else {
                String::from_str("")
            },
            backgrounds_mark,
            stars_mark,
        }
    }

    /// The rows of the list, in the order in which they are shown.
    pub fn list_rows(&self) -> (rows: Vec<ListRow>)
        requires
            forall|k: int|
                0 <= k < self@.filtered_themes.len() ==> #[trigger] self@.filtered_themes[k]
                    < self@.themes.len(),
        ensures
            rows@.len() == self@.filtered_themes.len(),
            forall|k: int|
                0 <= k < rows@.len() ==> row_shows(
                    #[trigger] rows@[k],
                    self@.themes[self@.filtered_themes[k] as int],
                    self@.favorites.contains(self@.themes[self@.filtered_themes[k] as int].name),
                ),
    {
        let mut rows: Vec<ListRow> = Vec::new();
        let mut k: usize = 0;
        while k < self.filtered_themes.len()
            invariant
                k <= self.filtered_themes@.len(),
                rows@.len() == k,
                forall|j: int|
                    0 <= j < self@.filtered_themes.len() ==> #[trigger] self@.filtered_themes[j]
                        < self@.themes.len(),
                forall|j: int|
                    0 <= j < k ==> row_shows(
                        #[trigger] rows@[j],
                        self@.themes[self@.filtered_themes[j] as int],
                        self@.favorites.contains(
                            self@.themes[self@.filtered_themes[j] as int].name,
                        ),
                    ),
            decreases self.filtered_themes@.len() - k,
        {
            assert(self@.filtered_themes[k as int] < self@.themes.len());
            rows.push(self.row_of(self.filtered_themes[k]));
            k = k + 1;
        }
        rows
    }
}

/// The value of a hexadecimal digit.
pub open spec fn hex_value(c: char) -> Option<int> {
    if '0' <= c <= '9' {
        Some(c as int - '0' as int)
    } else if 'a' <= c <= 'f' {
        Some(c as int - 'a' as int + 10)
    } else if 'A' <= c <= 'F' {
        Some(c as int - 'A' as int + 10)
    } else {
        None
    }
}

/// The number that two characters write in hexadecimal: two digits, or a
/// plus sign and one digit.
pub open spec fn hex_pair(a: char, b: char) -> Option<int> {
    match hex_value(b) {
        None => None,
        Some(low) => match hex_value(a) {
            Some(high) => Some(16 * high + low),
            None => if a == '+' {
                Some(low)
            } else {
                None
            },
        },
    }
}

/// How many `#` a text begins with.
pub open spec fn leading_hashes(s: Seq<char>) -> nat
    decreases s.len(),
{
    if s.len() > 0 && s[0] == '#' {
        leading_hashes(s.drop_first()) + 1
    } else {
        0
    }
}

/// The colour that a text writes: after any number of `#`, three pairs of
/// hexadecimal characters give red, green and blue. What follows them does
/// not count. Any other text writes no colour.
pub open spec fn color_of(text: Seq<char>) -> Option<(u8, u8, u8)> {
    let s = text.skip(leading_hashes(text) as int);
    if s.len() < 6 {
        None
    } else {
        match (hex_pair(s[0], s[1]), hex_pair(s[2], s[3]), hex_pair(s[4], s[5])) {
            (Some(r), Some(g), Some(b)) => Some((r as u8, g as u8, b as u8)),
            _ => None,
        }
    }
}

fn hex_digit(c: char) -> (r: Option<u8>)
    ensures
        match r {
            Some(v) => hex_value(c) == Some(v as int) && v < 16,
            None => hex_value(c) is None,
        },
{
    if '0' <= c && c <= '9' {
        Some((c as u32 - '0' as u32) as u8)
    } else if 'a' <= c && c <= 'f' {
        Some((c as u32 - 'a' as u32 + 10) as u8)
    } else if 'A' <= c && c <= 'F' {
        Some((c as u32 - 'A' as u32 + 10) as u8)
    } else {
        None
    }
}

fn hex_byte(a: char, b: char) -> (r: Option<u8>)
    ensures
        match r {
            Some(v) => hex_pair(a, b) == Some(v as int),
            None => hex_pair(a, b) is None,
        },
{
    match hex_digit(b) {
        None => None,
        Some(low) => match hex_digit(a) {
            Some(high) => Some(16 * high + low),
            None => if a == '+' {
                Some(low)
            } else {
                None
            },
        },
    }
}

/// Parse hex color to RGB
pub fn parse_hex_color(hex: &str) -> (r: Option<(u8, u8, u8)>)
    ensures
        r == color_of(hex@),
{
    let chars = chars_of(hex);
    let mut start: usize = 0;
    assert(chars@.skip(0) =~= chars@);
    while start < chars.len() && chars[start] == '#'
        invariant
            start <= chars@.len(),
            leading_hashes(chars@) == start + leading_hashes(chars@.skip(start as int)),
        decreases chars@.len() - start,
    {
        assert(chars@.skip(start as int).drop_first() =~= chars@.skip(start + 1));
        start = start + 1;
    }
    assert(leading_hashes(chars@) == start);
    if chars.len() - start < 6 {
        return None;
    }
    let red = hex_byte(chars[start], chars[start + 1]);
    let green = hex_byte(chars[start + 2], chars[start + 3]);
    let blue = hex_byte(chars[start + 4], chars[start + 5]);
    match (red, green, blue) {
        (Some(r), Some(g), Some(b)) => Some((r, g, b)),
        _ => None,
    }
}

/// One colour of a palette, as it is shown.
#[derive(Debug)]
pub struct Swatch {
    /// What the colour is called in the row.
    pub label: String,
    /// The colour, if its text writes one.
    pub rgb: Option<(u8, u8, u8)>,
}

/// The swatches of a row as mathematical values: label and colour.
pub open spec fn swatches(row: Seq<Swatch>) -> Seq<(Seq<char>, Option<(u8, u8, u8)>)> {
    row.map_values(|s: Swatch| (s.label@, s.rgb))
}

/// The swatches of those of the first `n` colours that are set, each under
/// its label.
pub open spec fn set_colors(entries: Seq<(Seq<char>, Option<String>)>, n: int) -> Seq<
    (Seq<char>, Option<(u8, u8, u8)>),
>
    decreases n,
{
    if n <= 0 {
        Seq::<(Seq<char>, Option<(u8, u8, u8)>)>::empty()
    } else {
        match entries[n - 1].1 {
            Some(text) => set_colors(entries, n - 1).push((entries[n - 1].0, color_of(text@))),
            None => set_colors(entries, n - 1),
        }
    }
}

/// Background, foreground and accent, with their labels.
pub open spec fn base_colors(colors: ColorPalette) -> Seq<(Seq<char>, Option<String>)> {
    seq![(" bg "@, colors.background), (" fg "@, colors.foreground), (" ac "@, colors.accent)]
}

/// The colours 0 to 7, with their labels.
pub open spec fn normal_colors(colors: ColorPalette) -> Seq<(Seq<char>, Option<String>)> {
    seq![
        ("0"@, colors.color0),
        ("1"@, colors.color1),
        ("2"@, colors.color2),
        ("3"@, colors.color3),
        ("4"@, colors.color4),
        ("5"@, colors.color5),
        ("6"@, colors.color6),
        ("7"@, colors.color7),
    ]
}

/// The colours 8 to 15, with their labels.
pub open spec fn bright_colors(colors: ColorPalette) -> Seq<(Seq<char>, Option<String>)> {
    seq![
        ("8"@, colors.color8),
        ("9"@, colors.color9),
        ("10"@, colors.color10),
        ("11"@, colors.color11),
        ("12"@, colors.color12),
        ("13"@, colors.color13),
        ("14"@, colors.color14),
        ("15"@, colors.color15),
    ]
}

/// Adds the swatch of a colour to the row, if the palette has the colour.
pub fn push_swatch(row: &mut Vec<Swatch>, label: &str, color: &Option<String>)
    ensures
        swatches(final(row)@) == match *color {
            Some(text) => swatches(old(row)@).push((label@, color_of(text@))),
            None => swatches(old(row)@),
        },
{
    match color {
        Some(text) => {
            let swatch = Swatch { label: String::from_str(label), rgb: parse_hex_color(text.as_str()) };
            row.push(swatch);
            assert(swatches(row@) =~= swatches(old(row)@).push((label@, color_of(text@))));
        },
        None => {},
    }
}

/// The swatches of background, foreground and accent, as far as they are
/// set.
fn base_row(colors: &ColorPalette) -> (row: Vec<Swatch>)
    ensures
        swatches(row@) == set_colors(base_colors(*colors), 3),
{
    proof {
        reveal_with_fuel(set_colors, 4);
    }
    let mut row: Vec<Swatch> = Vec::new();
    assert(swatches(row@) =~= set_colors(base_colors(*colors), 0));
    push_swatch(&mut row, " bg ", &colors.background);
    push_swatch(&mut row, " fg ", &colors.foreground);
    push_swatch(&mut row, " ac ", &colors.accent);
    row
}

/// The swatches of the colours 0 to 7, as far as they are set.
fn normal_row(colors: &ColorPalette) -> (row: Vec<Swatch>)
    ensures
        swatches(row@) == set_colors(normal_colors(*colors), 8),
{
    let ghost entries = normal_colors(*colors);
    let mut row: Vec<Swatch> = Vec::new();
    assert(swatches(row@) =~= set_colors(entries, 0));
    push_swatch(&mut row, "0", &colors.color0);
    assert(swatches(row@) == set_colors(entries, 1));
    push_swatch(&mut row, "1", &colors.color1);
    assert(swatches(row@) == set_colors(entries, 2));
    push_swatch(&mut row, "2", &colors.color2);
    assert(swatches(row@) == set_colors(entries, 3));
    push_swatch(&mut row, "3", &colors.color3);
    assert(swatches(row@) == set_colors(entries, 4));
    push_swatch(&mut row, "4", &colors.color4);
    assert(swatches(row@) == set_colors(entries, 5));
    push_swatch(&mut row, "5", &colors.color5);
    assert(swatches(row@) == set_colors(entries, 6));
    push_swatch(&mut row, "6", &colors.color6);
    assert(swatches(row@) == set_colors(entries, 7));
    push_swatch(&mut row, "7", &colors.color7);
    row
}

/// The swatches of the colours 8 to 15, as far as they are set.
fn bright_row(colors: &ColorPalette) -> (row: Vec<Swatch>)
    ensures
        swatches(row@) == set_colors(bright_colors(*colors), 8),
{
    let ghost entries = bright_colors(*colors);
    let mut row: Vec<Swatch> = Vec::new();
    assert(swatches(row@) =~= set_colors(entries, 0));
    push_swatch(&mut row, "8", &colors.color8);
    assert(swatches(row@) == set_colors(entries, 1));
    push_swatch(&mut row, "9", &colors.color9);
    assert(swatches(row@) == set_colors(entries, 2));
    push_swatch(&mut row, "10", &colors.color10);
    assert(swatches(row@) == set_colors(entries, 3));
    push_swatch(&mut row, "11", &colors.color11);
    assert(swatches(row@) == set_colors(entries, 4));
    push_swatch(&mut row, "12", &colors.color12);
    assert(swatches(row@) == set_colors(entries, 5));
    push_swatch(&mut row, "13", &colors.color13);
    assert(swatches(row@) == set_colors(entries, 6));
    push_swatch(&mut row, "14", &colors.color14);
    assert(swatches(row@) == set_colors(entries, 7));
    push_swatch(&mut row, "15", &colors.color15);
    row
}

/// The colours of a palette that are set, in the three rows in which they
/// are shown: background, foreground and accent; the colours 0 to 7; the
/// colours 8 to 15.
pub fn palette_rows(colors: &ColorPalette) -> (rows: (Vec<Swatch>, Vec<Swatch>, Vec<Swatch>))
    ensures
        swatches(rows.0@) == set_colors(base_colors(*colors), 3),
        swatches(rows.1@) == set_colors(normal_colors(*colors), 8),
        swatches(rows.2@) == set_colors(bright_colors(*colors), 8),
{
    (base_row(colors), normal_row(colors), bright_row(colors))
}

} // verus!

//! The browser's state: the registry of themes, the list that is shown, the
//! selection, and what the user can do with them.

use crate::mode::{FilterMode, SortMode};
use crate::order::{entry_order, sort_entries};
use crate::text::{contains_text, lowercase, lowercase_of, occurs_in, pop_char, push_char, without_last};
use crate::theme::{opt_text, views, Theme, ThemeStatus, ThemeView};
use ratatui::widgets::ListState;
use ratatui_image::picker::Picker;
use ratatui_image::protocol::StatefulProtocol;
use vstd::prelude::*;
use vstd::string::*;

verus! {

/// ratatui's state of a list widget, opaque here.
#[verifier::external_type_specification]
#[verifier::external_body]
pub struct ExListState(ListState);

/// ratatui-image's detected way of drawing images on the terminal, opaque
/// here.
#[verifier::external_type_specification]
#[verifier::external_body]
pub struct ExPicker(Picker);

/// ratatui-image's decoded image, ready to be drawn, opaque here.
#[verifier::external_type_specification]
#[verifier::external_body]
pub struct ExStatefulProtocol(StatefulProtocol);

/// The position that a list widget's state holds as selected.
pub uninterp spec fn list_selection(state: ListState) -> Option<usize>;

/// `ListState::selected` hands out the selected position that the state
/// holds.
pub assume_specification[ ListState::selected ](state: &ListState) -> (r: Option<usize>)
    ensures
        r == list_selection(*state),
;

/// `ListState::select` stores the given position as the selected one.
pub assume_specification[ ListState::select ](state: &mut ListState, index: Option<usize>)
    ensures
        list_selection(*final(state)) == index,
;

/// `ListState::default` starts with nothing selected.
pub assume_specification[ <ListState as Default>::default ]() -> (r: ListState)
    ensures
        list_selection(r) is None,
;

/// Application state
pub struct App {
    /// All themes (local + remote)
    pub themes: Vec<Theme>,
    /// Filtered themes based on current filter
    pub filtered_themes: Vec<usize>,
    /// List state for scrolling
    pub list_state: ListState,
    /// Current filter mode
    pub filter_mode: FilterMode,
    /// Current sort mode
    pub sort_mode: SortMode,
    /// Search query
    pub search_query: String,
    /// Is search mode active?
    pub searching: bool,
    /// Show preview panel?
    pub show_preview: bool,
    /// Status message
    pub status_message: Option<String>,
    /// Themes directory
    pub themes_dir: String,
    /// Config directory
    pub config_dir: String,
    /// Cache directory for downloaded previews
    pub cache_dir: String,
    /// Current theme name
    pub current_theme: Option<String>,
    /// Is loading?
    pub loading: bool,
    /// Favorite themes, each name once
    pub favorites: Vec<String>,
    /// Image picker for terminal graphics protocol detection
    pub image_picker: Option<Picker>,
    /// Current preview image (rendered protocol)
    pub current_preview_image: Option<StatefulProtocol>,
    /// Path of the currently loaded preview image
    pub current_preview_path: Option<String>,
    /// Is an image currently loading?
    pub image_loading: bool,
    /// Names of the themes whose preview is being fetched
    pub fetching: Vec<String>,
    /// Paths of the preview images that are being decoded
    pub decoding: Vec<String>,
    /// Names of the themes whose cached preview is being decoded, each with
    /// the path of the cached image
    pub cache_decoding: Vec<(String, String)>,
}

/// The texts of a list, each as its characters.
pub open spec fn texts(list: Seq<String>) -> Seq<Seq<char>> {
    list.map_values(|s: String| s@)
}

/// Pairs of texts, each as its characters.
pub open spec fn text_pairs(list: Seq<(String, String)>) -> Seq<(Seq<char>, Seq<char>)> {
    list.map_values(|p: (String, String)| (p.0@, p.1@))
}

/// The browser's state as a mathematical value.
pub struct AppView {
    pub themes: Seq<ThemeView>,
    pub filtered_themes: Seq<usize>,
    pub selected: Option<usize>,
    pub filter_mode: FilterMode,
    pub sort_mode: SortMode,
    pub search_query: Seq<char>,
    pub searching: bool,
    pub show_preview: bool,
    pub status_message: Option<Seq<char>>,
    pub themes_dir: Seq<char>,
    pub config_dir: Seq<char>,
    pub cache_dir: Seq<char>,
    pub current_theme: Option<Seq<char>>,
    pub loading: bool,
    pub favorites: Seq<Seq<char>>,
    pub image_picker: Option<Picker>,
    pub current_preview_image: Option<StatefulProtocol>,
    pub current_preview_path: Option<Seq<char>>,
    pub image_loading: bool,
    pub fetching: Seq<Seq<char>>,
    pub decoding: Seq<Seq<char>>,
    pub cache_decoding: Seq<(Seq<char>, Seq<char>)>,
}

impl View for App {
    type V = AppView;

    open spec fn view(&self) -> AppView {
        AppView {
            themes: views(self.themes@),
            filtered_themes: self.filtered_themes@,
            selected: list_selection(self.list_state),
            filter_mode: self.filter_mode,
            sort_mode: self.sort_mode,
            search_query: self.search_query@,
            searching: self.searching,
            show_preview: self.show_preview,
            status_message: opt_text(self.status_message),
            themes_dir: self.themes_dir@,
            config_dir: self.config_dir@,
            cache_dir: self.cache_dir@,
            current_theme: opt_text(self.current_theme),
            loading: self.loading,
            favorites: texts(self.favorites@),
            image_picker: self.image_picker,
            current_preview_image: self.current_preview_image,
            current_preview_path: opt_text(self.current_preview_path),
            image_loading: self.image_loading,
            fetching: texts(self.fetching@),
            decoding: texts(self.decoding@),
            cache_decoding: text_pairs(self.cache_decoding@),
        }
    }
}

/// How many entries one page of the list holds.
pub const PAGE_SIZE: usize = 10;

/// The selection that stays when the shown list has `len` entries: a
/// position beyond the list moves to its last entry, and nothing can be
/// selected in an empty list. While nothing is selected the first position
/// counts.
pub open spec fn clamped(selected: Option<usize>, len: nat) -> Option<usize> {
    let position = match selected {
        Some(i) => i,
        None => 0,
    };
    if position < len {
        selected
    } else if len == 0 {
        None
    } else {
        Some((len - 1) as usize)
    }
}

/// A list without the texts that equal `x`.
pub open spec fn without(list: Seq<Seq<char>>, x: Seq<char>) -> Seq<Seq<char>>
    decreases list.len(),
{
    if list.len() == 0 {
        list
    } else if list.last() == x {
        without(list.drop_last(), x)
    } else {
        without(list.drop_last(), x).push(list.last())
    }
}

/// The texts of a list, each once: where a text stands more than once the
/// first stays.
pub open spec fn unique(list: Seq<Seq<char>>) -> Seq<Seq<char>>
    decreases list.len(),
{
    if list.len() == 0 {
        list
    } else {
        with_once(unique(list.drop_last()), list.last())
    }
}

/// The path of the cached image that is being decoded for the theme `name`,
/// if one is.
pub open spec fn cache_decode_of(
    list: Seq<(Seq<char>, Seq<char>)>,
    name: Seq<char>,
) -> Option<Seq<char>>
    decreases list.len(),
{
    if list.len() == 0 {
        None
    } else if list[0].0 == name {
        Some(list[0].1)
    } else {
        cache_decode_of(list.drop_first(), name)
    }
}

/// A record of cache decodes without those of the image at `path`.
pub open spec fn without_path(
    list: Seq<(Seq<char>, Seq<char>)>,
    path: Seq<char>,
) -> Seq<(Seq<char>, Seq<char>)>
    decreases list.len(),
{
    if list.len() == 0 {
        list
    } else if list.last().1 == path {
        without_path(list.drop_last(), path)
    } else {
        without_path(list.drop_last(), path).push(list.last())
    }
}

/// A list with `x` added at its end, unless it holds `x` already.
pub open spec fn with_once(list: Seq<Seq<char>>, x: Seq<char>) -> Seq<Seq<char>> {
    if list.contains(x) {
        list
    } else {
        list.push(x)
    }
}

impl AppView {
    /// Entry `t` passes the filter mode.
    pub open spec fn passes_mode(self, t: ThemeView) -> bool {
        match self.filter_mode {
            FilterMode::All => true,
            FilterMode::Installed => t.status != ThemeStatus::Available,
            FilterMode::Available => t.status == ThemeStatus::Available,
            FilterMode::Favorites => self.favorites.contains(t.name),
        }
    }

    /// Entry `t` passes the search: the query is empty, or stands in the
    /// entry's name or display name, letter case aside.
    pub open spec fn passes_search(self, t: ThemeView) -> bool {
        ||| self.search_query.len() == 0
        ||| occurs_in(lowercase_of(self.search_query), lowercase_of(t.name))
        ||| occurs_in(lowercase_of(self.search_query), lowercase_of(t.display_name))
    }

    /// Entry `t` is shown: it passes the filter mode and the search.
    pub open spec fn passes(self, t: ThemeView) -> bool {
        self.passes_mode(t) && self.passes_search(t)
    }

    /// The positions below `n` of the registry's entries that are shown, in
    /// the order of the registry.
    pub open spec fn candidates(self, n: int) -> Seq<usize>
        decreases n,
    {
        if n <= 0 {
            Seq::<usize>::empty()
        } else if self.passes(self.themes[n - 1]) {
            self.candidates(n - 1).push((n - 1) as usize)
        } else {
            self.candidates(n - 1)
        }
    }

    /// The list that is shown: the positions of the entries that pass the
    /// filter, in the order of the sort mode.
    pub open spec fn visible(self) -> Seq<usize> {
        self.candidates(self.themes.len() as int).sort_by(
            entry_order(self.themes, self.sort_mode.ranking()),
        )
    }

    /// The state once the shown list has been computed anew and the selection
    /// brought back into it.
    pub open spec fn refiltered(self) -> AppView {
        AppView {
            filtered_themes: self.visible(),
            selected: clamped(self.selected, self.visible().len()),
            ..self
        }
    }

    /// The position in the registry of the selected entry, if an entry is
    /// selected.
    pub open spec fn selected_index(self) -> Option<usize> {
        match self.selected {
            Some(i) => if i < self.filtered_themes.len() && self.filtered_themes[i as int]
                < self.themes.len() {
                Some(self.filtered_themes[i as int])
            } else {
                None
            },
            None => None,
        }
    }

    /// The selected entry, if an entry is selected.
    pub open spec fn selected_theme(self) -> Option<ThemeView> {
        match self.selected_index() {
            Some(i) => Some(self.themes[i as int]),
            None => None,
        }
    }

    /// The favorites and the records of the work in the background hold
    /// each text once.
    pub open spec fn records_unique(self) -> bool {
        &&& self.favorites.no_duplicates()
        &&& self.fetching.no_duplicates()
        &&& self.decoding.no_duplicates()
    }

    /// The shown list holds positions of the registry, none of them twice;
    /// the selection, if there is one, is a position of the shown list; and
    /// the favorites and the records of the work in the background hold each
    /// text once.
    pub open spec fn wf(self) -> bool {
        &&& forall|i: int|
            0 <= i < self.filtered_themes.len() ==> #[trigger] self.filtered_themes[i]
                < self.themes.len()
        &&& self.filtered_themes.no_duplicates()
        &&& match self.selected {
            Some(i) => i < self.filtered_themes.len(),
            None => true,
        }
        &&& self.records_unique()
    }

    /// The state with the given status message.
    pub open spec fn with_status(self, message: Seq<char>) -> AppView {
        AppView { status_message: Some(message), ..self }
    }

    /// The state with the given position selected.
    pub open spec fn with_selected(self, position: usize) -> AppView {
        AppView { selected: Some(position), ..self }
    }

    /// The position that follows the selected one, going round at the end.
    pub open spec fn position_after(self) -> usize {
        match self.selected {
            Some(i) => if i + 1 >= self.filtered_themes.len() {
                0
            } else {
                (i + 1) as usize
            },
            None => 0,
        }
    }

    /// The position before the selected one, going round at the start.
    pub open spec fn position_before(self) -> usize {
        match self.selected {
            Some(i) => if i == 0 {
                (self.filtered_themes.len() - 1) as usize
            } else {
                (i - 1) as usize
            },
            None => 0,
        }
    }

    /// The position one page further down, at most the last one.
    pub open spec fn position_page_down(self) -> usize {
        let i = match self.selected {
            Some(i) => i,
            None => 0,
        };
        if i + PAGE_SIZE < self.filtered_themes.len() {
            (i + PAGE_SIZE) as usize
        } else {
            (self.filtered_themes.len() - 1) as usize
        }
    }

    /// The position one page further up, at least the first one.
    pub open spec fn position_page_up(self) -> usize {
        let i = match self.selected {
            Some(i) => i,
            None => 0,
        };
        if i >= PAGE_SIZE {
            (i - PAGE_SIZE) as usize
        } else {
            0
        }
    }
}

/// The shown list that `visible` describes holds positions of the registry,
/// each at most once.
pub proof fn lemma_visible_is_sound(s: AppView)
    requires
        s.themes.len() <= usize::MAX,
    ensures
        forall|i: int| 0 <= i < s.visible().len() ==> #[trigger] s.visible()[i] < s.themes.len(),
        s.visible().no_duplicates(),
        s.visible().to_multiset() == s.candidates(s.themes.len() as int).to_multiset(),
{
    let base = s.candidates(s.themes.len() as int);
    let leq = entry_order(s.themes, s.sort_mode.ranking());
    lemma_candidates_ascend(s, s.themes.len() as int);
    crate::order::lemma_entry_order_total(s.themes, s.sort_mode.ranking());
    base.lemma_sort_by_ensures(leq);
    let out = s.visible();
    base.lemma_multiset_has_no_duplicates();
    out.lemma_multiset_has_no_duplicates_conv();
    assert forall|i: int| 0 <= i < out.len() implies #[trigger] out[i] < s.themes.len() by {
        broadcast use vstd::seq_lib::group_to_multiset_ensures;

        assert(out.to_multiset().count(out[i]) > 0);
    }
}

/// The candidates below `n` are positions below `n`, in ascending order.
pub proof fn lemma_candidates_ascend(s: AppView, n: int)
    requires
        n <= usize::MAX + 1,
    ensures
        forall|i: int| 0 <= i < s.candidates(n).len() ==> #[trigger] s.candidates(n)[i] < n,
        forall|i: int, j: int|
            0 <= i < j < s.candidates(n).len() ==> #[trigger] s.candidates(n)[i]
                < #[trigger] s.candidates(n)[j],
        s.candidates(n).no_duplicates(),
        forall|k: int|
            0 <= k < n ==> (s.candidates(n).contains(k as usize) <==> s.passes(
                #[trigger] s.themes[k],
            )),
    decreases n,
{
    if n > 0 {
        lemma_candidates_ascend(s, n - 1);
        let prev = s.candidates(n - 1);
        let cur = s.candidates(n);
        let last = (n - 1) as usize;
        assert forall|k: int| 0 <= k < n implies (cur.contains(k as usize) <==> s.passes(
            #[trigger] s.themes[k],
        )) by {
            if s.passes(s.themes[n - 1]) {
                if k == n - 1 {
                    assert(cur[cur.len() - 1] == last);
                } else {
                    if prev.contains(k as usize) {
                        let w = choose|w: int| 0 <= w < prev.len() && prev[w] == k as usize;
                        assert(cur[w] == k as usize);
                    }
                }
            }
        }
    }
}

/// A list from which a text has been taken holds that text no more, and
/// holds every other text that it held.
pub proof fn lemma_without_takes_one(list: Seq<Seq<char>>, x: Seq<char>)
    ensures
        !without(list, x).contains(x),
        forall|y: Seq<char>|
            y != x ==> (#[trigger] without(list, x).contains(y) <==> list.contains(y)),
        without(list, x).len() <= list.len(),
    decreases list.len(),
{
    if list.len() > 0 {
        let head = list.drop_last();
        let last = list.last();
        lemma_without_takes_one(head, x);
        let out = without(list, x);
        assert forall|y: Seq<char>| y != x implies (out.contains(y) <==> list.contains(y)) by {
            if list.contains(y) {
                let i = choose|i: int| 0 <= i < list.len() && list[i] == y;
                if i < head.len() {
                    assert(head[i] == y);
                    assert(head.contains(y));
                    assert(without(head, x).contains(y));
                    let k = choose|k: int| 0 <= k < without(head, x).len() && without(head, x)[k]
                        == y;
                    assert(out[k] == y);
                } else {
                    assert(last == y);
                    assert(out[out.len() - 1] == y);
                }
            }
            if out.contains(y) {
                let k = choose|k: int| 0 <= k < out.len() && out[k] == y;
                if k < without(head, x).len() {
                    assert(without(head, x)[k] == y);
                    assert(without(head, x).contains(y));
                    assert(head.contains(y));
                    let i = choose|i: int| 0 <= i < head.len() && head[i] == y;
                    assert(list[i] == y);
                } else {
                    assert(list[list.len() - 1] == y);
                }
            }
        }
        if out.contains(x) {
            let k = choose|k: int| 0 <= k < out.len() && out[k] == x;
            if k < without(head, x).len() {
                assert(without(head, x)[k] == x);
                assert(without(head, x).contains(x));
            }
        }
    }
}

/// A list that holds each text once still does when a text is added that
/// it does not hold, and then holds that text.
pub proof fn lemma_with_once_keeps_unique(list: Seq<Seq<char>>, x: Seq<char>)
    requires
        list.no_duplicates(),
    ensures
        with_once(list, x).no_duplicates(),
        with_once(list, x).contains(x),
{
    if !list.contains(x) {
        let out = list.push(x);
        assert(out[list.len() as int] == x);
        assert forall|i: int, j: int| 0 <= i < out.len() && 0 <= j < out.len() && i != j implies out[i]
            != out[j] by {
            if i == list.len() {
                assert(list[j] == out[j]);
            } else if j == list.len() {
                assert(list[i] == out[i]);
            } else {
                assert(list[i] == out[i]);
                assert(list[j] == out[j]);
            }
        }
    }
}

/// Taking a text out of a list that holds each text once leaves a list that
/// holds each text once.
pub proof fn lemma_without_keeps_unique(list: Seq<Seq<char>>, x: Seq<char>)
    requires
        list.no_duplicates(),
    ensures
        without(list, x).no_duplicates(),
    decreases list.len(),
{
    if list.len() > 0 {
        let head = list.drop_last();
        let last = list.last();
        assert forall|i: int, j: int| 0 <= i < head.len() && 0 <= j < head.len() && i != j implies head[i]
            != head[j] by {
            assert(head[i] == list[i]);
            assert(head[j] == list[j]);
        }
        lemma_without_keeps_unique(head, x);
        lemma_without_takes_one(head, x);
        if last != x {
            if head.contains(last) {
                let i = choose|i: int| 0 <= i < head.len() && head[i] == last;
                assert(list[i] == list[list.len() - 1]);
            }
            assert(!without(head, x).contains(last));
            assert(with_once(without(head, x), last) == without(head, x).push(last));
            lemma_with_once_keeps_unique(without(head, x), last);
        }
    }
}

/// The texts of a list, each once, are a list that holds each text once,
/// and hold what the list holds.
pub proof fn lemma_unique_is_unique(list: Seq<Seq<char>>)
    ensures
        unique(list).no_duplicates(),
        list.no_duplicates() ==> unique(list) == list,
    decreases list.len(),
{
    if list.len() > 0 {
        let head = list.drop_last();
        lemma_unique_is_unique(head);
        lemma_with_once_keeps_unique(unique(head), list.last());
        if list.no_duplicates() {
            assert forall|i: int, j: int| 0 <= i < head.len() && 0 <= j < head.len() && i
                != j implies head[i] != head[j] by {
                assert(head[i] == list[i]);
                assert(head[j] == list[j]);
            }
            if head.contains(list.last()) {
                let i = choose|i: int| 0 <= i < head.len() && head[i] == list.last();
                assert(list[i] == list[list.len() - 1]);
            }
            assert(head.push(list.last()) =~= list);
        }
    }
}

impl App {
    /// Get selected index
    pub fn selected(&self) -> (r: usize)
        ensures
            r == match self@.selected {
                Some(i) => i,
                None => 0,
            },
    {
        match self.list_state.selected() {
            Some(i) => i,
            None => 0,
        }
    }

    /// Check if theme is favorite
    pub fn is_favorite(&self, name: &str) -> (r: bool)
        ensures
            r == self@.favorites.contains(name@),
    {
        let mut i: usize = 0;
        while i < self.favorites.len()
            invariant
                i <= self.favorites@.len(),
                forall|k: int| 0 <= k < i ==> texts(self.favorites@)[k] != name@,
            decreases self.favorites@.len() - i,
        {
            if self.favorites[i].as_str().eq(name) {
                assert(texts(self.favorites@)[i as int] == name@);
                return true;
            }
            i = i + 1;
        }
        false
    }

    /// The position in the registry of the selected entry.
    pub fn selected_index(&self) -> (r: Option<usize>)
        ensures
            r == self@.selected_index(),
    {
        match self.list_state.selected() {
            Some(i) => {
                if i < self.filtered_themes.len() && self.filtered_themes[i] < self.themes.len() {
                    Some(self.filtered_themes[i])
                } else {
                    None
                }
            },
            None => None,
        }
    }

    /// Get currently selected theme
    pub fn selected_theme(&self) -> (r: Option<&Theme>)
        ensures
            match r {
                Some(t) => self@.selected_index() is Some && *t == self.themes@[
                    self@.selected_index().unwrap() as int
                ] && Some(t@) == self@.selected_theme(),
                None => self@.selected_index() is None,
            },
    {
        match self.selected_index() {
            Some(i) => Some(&self.themes[i]),
            None => None,
        }
    }

    /// Whether the theme at position `i` of the registry is shown.
    fn passes(&self, i: usize, query: &str) -> (r: bool)
        requires
            i < self.themes@.len(),
            query@ == lowercase_of(self.search_query@),
        ensures
            r == self@.passes(self@.themes[i as int]),
    {
        let theme = &self.themes[i];
        let mode_match = match self.filter_mode {
            FilterMode::All => true,
            FilterMode::Installed => match theme.status {
                ThemeStatus::Available => false,
                _ => true,
            },
            FilterMode::Available => match theme.status {
                ThemeStatus::Available => true,
                _ => false,
            },
            FilterMode::Favorites => self.is_favorite(theme.name.as_str()),
        };
        if !mode_match {
            return false;
        }
        if self.search_query.as_str().is_empty() {
            return true;
        }
        let name = lowercase(theme.name.as_str());
        if contains_text(name.as_str(), query) {
            return true;
        }
        let display_name = lowercase(theme.display_name.as_str());
        contains_text(display_name.as_str(), query)
    }

    /// Update filtered themes based on filter mode, search, and sort
    pub fn update_filter(&mut self)
        ensures
            final(self)@ == old(self)@.refiltered(),
            old(self)@.records_unique() ==> final(self)@.wf(),
    {
        let query = lowercase(self.search_query.as_str());
        let mut found: Vec<usize> = Vec::new();
        let mut i: usize = 0;
        while i < self.themes.len()
            invariant
                i <= self.themes@.len(),
                *self == *old(self),
                query@ == lowercase_of(self.search_query@),
                found@ == self@.candidates(i as int),
            decreases self.themes@.len() - i,
        {
            if self.passes(i, query.as_str()) {
                found.push(i);
            }
            i = i + 1;
        }
        proof {
            lemma_candidates_ascend(self@, self.themes@.len() as int);
            lemma_visible_is_sound(self@);
        }
        let sorted = sort_entries(&self.themes, self.sort_mode.ranks_by(), &found);
        self.filtered_themes = sorted;
        let selected = self.selected();
        if selected >= self.filtered_themes.len() {
            if self.filtered_themes.len() == 0 {
                self.list_state.select(None);
            } else {
                self.list_state.select(Some(self.filtered_themes.len() - 1));
            }
        }
    }

    /// Filter cycling
    pub fn cycle_filter(&mut self)
        ensures
            final(self)@ == (AppView {
                filter_mode: old(self)@.filter_mode.successor(),
                ..old(self)@
            }).refiltered(),
    {
        self.filter_mode = self.filter_mode.next();
        self.update_filter();
    }

    /// Show the installed themes only.
    pub fn filter_installed(&mut self)
        ensures
            final(self)@ == (AppView {
                filter_mode: FilterMode::Installed,
                ..old(self)@
            }).refiltered(),
    {
        self.filter_mode = FilterMode::Installed;
        self.update_filter();
    }

    /// Sort cycling
    pub fn cycle_sort(&mut self)
        ensures
            final(self)@ == (AppView {
                sort_mode: old(self)@.sort_mode.successor(),
                ..old(self)@
            }).refiltered().with_status("Sort: "@ + old(self)@.sort_mode.successor().label_text()),
    {
        self.sort_mode = self.sort_mode.next();
        self.update_filter();
        let mut message = String::from_str("Sort: ");
        message.append(self.sort_mode.label());
        self.status_message = Some(message);
    }

    /// Search
    pub fn enter_search_mode(&mut self)
        ensures
            final(self)@ == (AppView {
                searching: true,
                search_query: Seq::<char>::empty(),
                ..old(self)@
            }),
    {
        self.searching = true;
        self.search_query = String::new();
    }

    /// Leave the search and drop the query.
    pub fn exit_search_mode(&mut self)
        ensures
            final(self)@ == (AppView {
                searching: false,
                search_query: Seq::<char>::empty(),
                ..old(self)@
            }).refiltered(),
    {
        self.searching = false;
        self.search_query = String::new();
        self.update_filter();
    }

    /// Add a character to the query.
    pub fn search_input(&mut self, c: char)
        ensures
            final(self)@ == (AppView {
                search_query: old(self)@.search_query.push(c),
                ..old(self)@
            }).refiltered(),
    {
        push_char(&mut self.search_query, c);
        self.update_filter();
    }

    /// Take the last character off the query.
    pub fn search_backspace(&mut self)
        ensures
            final(self)@ == (AppView {
                search_query: without_last(old(self)@.search_query),
                ..old(self)@
            }).refiltered(),
    {
        pop_char(&mut self.search_query);
        self.update_filter();
    }

    /// Leave the search and keep the query.
    pub fn search_submit(&mut self)
        ensures
            final(self)@ == (AppView { searching: false, ..old(self)@ }),
    {
        self.searching = false;
    }

    /// Toggle preview panel
    pub fn toggle_preview(&mut self)
        ensures
            final(self)@ == (AppView { show_preview: !old(self)@.show_preview, ..old(self)@ }),
    {
        self.show_preview = !self.show_preview;
    }
}

} // verus!

//! The preview of the selected theme: what has to be done to show it, and the
//! moves of the selection, each of which asks that question anew.
//!
//! Nothing here reads a file or the network. A step changes the state and
//! tells the caller what to do next; the caller does it and comes back with
//! the outcome.

use crate::app::{
    cache_decode_of, lemma_unique_is_unique, text_pairs, texts, unique, with_once, without_path,
    App, AppView, PAGE_SIZE,
};
use crate::theme::Theme;
use ratatui_image::picker::Picker;
use vstd::prelude::*;
use vstd::string::*;

verus! {

/// What the caller has to do for the preview of the selected theme.
#[derive(Debug)]
pub enum PreviewAction {
    /// Nothing: the preview is shown, is on its way, or there is none.
    Nothing,
    /// Decode the image file at `path` in the background and report the
    /// outcome with the same path.
    Decode { path: String },
    /// Look whether the preview of the theme `name` is in the cache, and
    /// report it with `preview_probed`.
    Probe { name: String, url: String },
    /// Fetch the preview of the theme `name` from `url` into the cache in the
    /// background and report the outcome with the same name.
    Fetch { name: String, url: String },
}

/// A preview action as a mathematical value.
pub enum PreviewActionView {
    Nothing,
    Decode { path: Seq<char> },
    Probe { name: Seq<char>, url: Seq<char> },
    Fetch { name: Seq<char>, url: Seq<char> },
}

impl View for PreviewAction {
    type V = PreviewActionView;

    open spec fn view(&self) -> PreviewActionView {
        match *self {
            PreviewAction::Nothing => PreviewActionView::Nothing,
            PreviewAction::Decode { path } => PreviewActionView::Decode { path: path@ },
            PreviewAction::Probe { name, url } => PreviewActionView::Probe {
                name: name@,
                url: url@,
            },
            PreviewAction::Fetch { name, url } => PreviewActionView::Fetch {
                name: name@,
                url: url@,
            },
        }
    }
}

impl PreviewActionView {
    /// The action starts work in the background.
    pub open spec fn dispatches(self) -> bool {
        self is Decode || self is Fetch
    }
}

impl AppView {
    /// The state in which no preview is shown or awaited, and nothing is
    /// said to be loading.
    pub open spec fn preview_cleared(self) -> AppView {
        AppView {
            current_preview_image: None,
            current_preview_path: None,
            image_loading: false,
            ..self
        }
    }

    /// The state in which the image at `path` is awaited, or an image that
    /// has no path yet.
    pub open spec fn awaiting(self, path: Option<Seq<char>>) -> AppView {
        AppView {
            current_preview_path: path,
            current_preview_image: None,
            image_loading: true,
            ..self
        }
    }

    /// The step that makes the cached image at `path` the preview that is
    /// awaited for the theme `name`, and puts the decoding on record under
    /// the theme's name.
    pub open spec fn cache_decode_started(self, name: Seq<char>, path: Seq<char>) -> (
        AppView,
        PreviewActionView,
    ) {
        (
            AppView {
                cache_decoding: self.cache_decoding.push((name, path)),
                ..self.decode_started(path).0
            },
            self.decode_started(path).1,
        )
    }

    /// Work for the preview of the theme `name` is under way: its fetch, or
    /// the decoding of its cached image.
    pub open spec fn preview_under_way(self, name: Seq<char>) -> bool {
        self.fetching.contains(name) || cache_decode_of(self.cache_decoding, name) is Some
    }

    /// The step that makes `path` the preview that is awaited. The image is
    /// decoded in the background unless that is under way already.
    pub open spec fn decode_started(self, path: Seq<char>) -> (AppView, PreviewActionView) {
        (
            AppView {
                current_preview_path: Some(path),
                current_preview_image: None,
                image_loading: true,
                decoding: with_once(self.decoding, path),
                ..self
            },
            if self.decoding.contains(path) {
                PreviewActionView::Nothing
            } else {
                PreviewActionView::Decode { path }
            },
        )
    }

    /// The step that awaits the preview of the theme `name` from the network.
    /// It is fetched in the background unless that is under way already.
    pub open spec fn fetch_started(self, name: Seq<char>, url: Seq<char>) -> (
        AppView,
        PreviewActionView,
    ) {
        (
            AppView {
                current_preview_path: None,
                current_preview_image: None,
                image_loading: true,
                fetching: with_once(self.fetching, name),
                ..self
            },
            if self.fetching.contains(name) {
                PreviewActionView::Nothing
            } else {
                PreviewActionView::Fetch { name, url }
            },
        )
    }

    /// The selected theme has no preview image on this machine but can have
    /// one fetched: its name and the address of the preview.
    pub open spec fn remote_preview(self) -> Option<(Seq<char>, Seq<char>)> {
        match self.selected_theme() {
            Some(t) => if t.preview_path is None && t.preview_url is Some {
                Some((t.name, t.preview_url.unwrap()))
            } else {
                None
            },
            None => None,
        }
    }

    /// The step taken for the preview of the selected theme.
    ///
    /// With no theme selected, or none that has a preview, nothing is shown.
    /// A local image that is the one shown or awaited stays; another one is
    /// decoded, once the terminal's way of drawing is known. A theme that
    /// only has a remote preview needs a look into the cache first.
    pub open spec fn preview_step(self) -> (AppView, PreviewActionView) {
        match self.selected_theme() {
            None => (self.preview_cleared(), PreviewActionView::Nothing),
            Some(t) => match t.preview_path {
                Some(path) => if self.current_preview_path == Some(path) || self.image_picker
                    is None {
                    (self, PreviewActionView::Nothing)
                } else {
                    self.decode_started(path)
                },
                None => match t.preview_url {
                    Some(url) => (self, PreviewActionView::Probe { name: t.name, url }),
                    None => (self.preview_cleared(), PreviewActionView::Nothing),
                },
            },
        }
    }

    /// The step taken once the cache has been looked into for the selected
    /// theme: `cached` is the path of the cached image, if there is one.
    ///
    /// While work for the theme's preview is under way nothing is started,
    /// whatever the cache holds by now: the state goes back to awaiting that
    /// work. Otherwise a cached image is decoded, once the terminal's way of
    /// drawing is known, and without one the preview is fetched. Where the
    /// selected theme does not wait for this answer, nothing happens.
    pub open spec fn probe_step(self, cached: Option<Seq<char>>) -> (AppView, PreviewActionView) {
        match self.remote_preview() {
            Some((name, url)) => if self.fetching.contains(name) {
                (self.awaiting(None), PreviewActionView::Nothing)
            } else {
                match cache_decode_of(self.cache_decoding, name) {
                    Some(path) => (self.awaiting(Some(path)), PreviewActionView::Nothing),
                    None => match cached {
                        Some(path) => if self.image_picker is None {
                            (self, PreviewActionView::Nothing)
                        } else {
                            self.cache_decode_started(name, path)
                        },
                        None => self.fetch_started(name, url),
                    },
                }
            },
            None => (self, PreviewActionView::Nothing),
        }
    }

    /// The step that moves the selection to `position` and asks for the
    /// preview of the theme there. In an empty list nothing moves.
    pub open spec fn moved(self, position: usize) -> (AppView, PreviewActionView) {
        if self.filtered_themes.len() == 0 {
            (self, PreviewActionView::Nothing)
        } else {
            self.with_selected(position).preview_step()
        }
    }
}

/// The size in pixels, width and height, that a character is taken to have
/// where the terminal does not tell: the caller makes the picker of last
/// resort with it.
pub const FALLBACK_FONT_SIZE: (u16, u16) = (8, 16);

/// Whether the list holds the text.
pub fn holds_text(list: &Vec<String>, x: &str) -> (r: bool)
    ensures
        r == texts(list@).contains(x@),
{
    let mut i: usize = 0;
    while i < list.len()
        invariant
            i <= list@.len(),
            forall|k: int| 0 <= k < i ==> texts(list@)[k] != x@,
        decreases list@.len() - i,
    {
        if list[i].as_str().eq(x) {
            assert(texts(list@)[i as int] == x@);
            return true;
        }
        i = i + 1;
    }
    false
}

/// Adds the text at the end of the list, unless the list holds it already.
/// Returns whether it was added.
pub fn add_once(list: &mut Vec<String>, x: String) -> (added: bool)
    ensures
        texts(final(list)@) == with_once(texts(old(list)@), x@),
        added == !texts(old(list)@).contains(x@),
{
    if holds_text(list, x.as_str()) {
        false
    } else {
        list.push(x);
        true
    }
}

/// The texts of the list, each once: where a text stands more than once the
/// first stays.
pub fn unique_texts(list: &Vec<String>) -> (r: Vec<String>)
    ensures
        texts(r@) == unique(texts(list@)),
        texts(r@).no_duplicates(),
{
    let mut out: Vec<String> = Vec::new();
    let mut i: usize = 0;
    assert(texts(list@).take(0) =~= Seq::<Seq<char>>::empty());
    while i < list.len()
        invariant
            i <= list@.len(),
            texts(out@) == unique(texts(list@).take(i as int)),
        decreases list@.len() - i,
    {
        let ghost head = texts(list@).take(i as int);
        add_once(&mut out, list[i].clone());
        i = i + 1;
        assert(texts(list@).take(i as int).drop_last() =~= head);
        assert(texts(list@).take(i as int).last() == list@[i - 1]@);
    }
    assert(texts(list@).take(list@.len() as int) =~= texts(list@));
    proof {
        lemma_unique_is_unique(texts(list@));
    }
    out
}

/// The path of the cached image that is being decoded for the theme `name`.
pub fn find_cache_decode(list: &Vec<(String, String)>, name: &str) -> (r: Option<String>)
    ensures
        crate::theme::opt_text(r) == cache_decode_of(text_pairs(list@), name@),
{
    let mut i: usize = 0;
    assert(text_pairs(list@).skip(0) =~= text_pairs(list@));
    while i < list.len()
        invariant
            i <= list@.len(),
            cache_decode_of(text_pairs(list@), name@) == cache_decode_of(
                text_pairs(list@).skip(i as int),
                name@,
            ),
        decreases list@.len() - i,
    {
        let ghost rest = text_pairs(list@).skip(i as int);
        assert(rest[0] == (list@[i as int].0@, list@[i as int].1@));
        if list[i].0.as_str().eq(name) {
            return Some(list[i].1.clone());
        }
        assert(rest.drop_first() =~= text_pairs(list@).skip(i + 1));
        i = i + 1;
    }
    None
}

/// Takes the decodes of the image at `path` off the record.
pub fn remove_path(list: &mut Vec<(String, String)>, path: &str)
    ensures
        text_pairs(final(list)@) == without_path(text_pairs(old(list)@), path@),
{
    let mut kept: Vec<(String, String)> = Vec::new();
    let mut i: usize = 0;
    assert(text_pairs(list@).take(0) =~= Seq::<(Seq<char>, Seq<char>)>::empty());
    while i < list.len()
        invariant
            i <= list@.len(),
            list@ == old(list)@,
            text_pairs(kept@) == without_path(text_pairs(list@).take(i as int), path@),
        decreases list@.len() - i,
    {
        let ghost before = text_pairs(kept@);
        let ghost head = text_pairs(list@).take(i as int);
        if !list[i].1.as_str().eq(path) {
            kept.push((list[i].0.clone(), list[i].1.clone()));
            assert(text_pairs(kept@) =~= before.push((list@[i as int].0@, list@[i as int].1@)));
        }
        i = i + 1;
        assert(text_pairs(list@).take(i as int).drop_last() =~= head);
        assert(text_pairs(list@).take(i as int).last() == (list@[i - 1].0@, list@[i - 1].1@));
    }
    assert(text_pairs(list@).take(list@.len() as int) =~= text_pairs(list@));
    *list = kept;
}

impl App {
    fn clear_preview(&mut self)
        ensures
            final(self)@ == old(self)@.preview_cleared(),
    {
        self.current_preview_image = None;
        self.current_preview_path = None;
        self.image_loading = false;
    }

    fn await_preview(&mut self, path: Option<String>)
        ensures
            final(self)@ == old(self)@.awaiting(crate::theme::opt_text(path)),
    {
        self.current_preview_path = path;
        self.current_preview_image = None;
        self.image_loading = true;
    }

    fn start_decode(&mut self, path: String) -> (action: PreviewAction)
        ensures
            (final(self)@, action@) == old(self)@.decode_started(path@),
    {
        let added = add_once(&mut self.decoding, path.clone());
        self.current_preview_path = Some(path.clone());
        self.current_preview_image = None;
        self.image_loading = true;
        if added {
            PreviewAction::Decode { path }
        } else {
            PreviewAction::Nothing
        }
    }

    fn start_fetch(&mut self, name: String, url: String) -> (action: PreviewAction)
        ensures
            (final(self)@, action@) == old(self)@.fetch_started(name@, url@),
    {
        let added = add_once(&mut self.fetching, name.clone());
        self.current_preview_path = None;
        self.current_preview_image = None;
        self.image_loading = true;
        if added {
            PreviewAction::Fetch { name, url }
        } else {
            PreviewAction::Nothing
        }
    }

    /// Initialize the image picker: takes the way of drawing images that
    /// the caller found out, or made up for a terminal that told nothing.
    pub fn init_image_picker(&mut self, picker: Picker)
        ensures
            final(self)@ == (AppView { image_picker: Some(picker), ..old(self)@ }),
    {
        self.image_picker = Some(picker);
    }

    /// Load preview image for the currently selected theme
    pub fn load_selected_preview(&mut self) -> (action: PreviewAction)
        ensures
            (final(self)@, action@) == old(self)@.preview_step(),
    {
        let theme: Theme = match self.selected_theme() {
            Some(t) => t.clone(),
            None => {
                self.clear_preview();
                return PreviewAction::Nothing;
            },
        };
        match theme.preview_path {
            Some(path) => {
                let shown = match &self.current_preview_path {
                    Some(current) => *current == path,
                    None => false,
                };
                if shown || self.image_picker.is_none() {
                    PreviewAction::Nothing
                } else {
                    self.start_decode(path)
                }
            },
            None => match theme.preview_url {
                Some(url) => PreviewAction::Probe { name: theme.name, url },
                None => {
                    self.clear_preview();
                    PreviewAction::Nothing
                },
            },
        }
    }

    /// Goes on with the preview of the selected theme once the cache has been
    /// looked into: `cached` is the path of the cached image, if there is one.
    pub fn preview_probed(&mut self, cached: Option<String>) -> (action: PreviewAction)
        ensures
            (final(self)@, action@) == old(self)@.probe_step(crate::theme::opt_text(cached)),
    {
        let theme: Theme = match self.selected_theme() {
            Some(t) => t.clone(),
            None => {
                return PreviewAction::Nothing;
            },
        };
        if theme.preview_path.is_some() {
            return PreviewAction::Nothing;
        }
        let url: String = match theme.preview_url {
            Some(url) => url,
            None => {
                return PreviewAction::Nothing;
            },
        };
        if holds_text(&self.fetching, theme.name.as_str()) {
            self.await_preview(None);
            return PreviewAction::Nothing;
        }
        match find_cache_decode(&self.cache_decoding, theme.name.as_str()) {
            Some(path) => {
                self.await_preview(Some(path));
                PreviewAction::Nothing
            },
            None => match cached {
                Some(path) => {
                    if self.image_picker.is_none() {
                        PreviewAction::Nothing
                    } else {
                        let ghost before = text_pairs(self.cache_decoding@);
                        self.cache_decoding.push((theme.name, path.clone()));
                        assert(text_pairs(self.cache_decoding@) =~= before.push(
                            (theme.name@, path@),
                        ));
                        self.start_decode(path)
                    }
                },
                None => self.start_fetch(theme.name, url),
            },
        }
    }

    fn move_to(&mut self, position: usize) -> (action: PreviewAction)
        requires
            old(self)@.filtered_themes.len() > 0,
        ensures
            (final(self)@, action@) == old(self)@.moved(position),
    {
        self.list_state.select(Some(position));
        self.load_selected_preview()
    }

    /// Navigation
    pub fn next(&mut self) -> (action: PreviewAction)
        ensures
            (final(self)@, action@) == old(self)@.moved(old(self)@.position_after()),
    {
        if self.filtered_themes.len() == 0 {
            return PreviewAction::Nothing;
        }
        let i: usize = match self.list_state.selected() {
            Some(i) => {
                if i >= self.filtered_themes.len() - 1 {
                    0
                } else {
                    i + 1
                }
            },
            None => 0,
        };
        self.move_to(i)
    }

    /// Selects the entry before the selected one, going round at the start.
    pub fn previous(&mut self) -> (action: PreviewAction)
        ensures
            (final(self)@, action@) == old(self)@.moved(old(self)@.position_before()),
    {
        if self.filtered_themes.len() == 0 {
            return PreviewAction::Nothing;
        }
        let i: usize = match self.list_state.selected() {
            Some(i) => {
                if i == 0 {
                    self.filtered_themes.len() - 1
                } else {
                    i - 1
                }
            },
            None => 0,
        };
        self.move_to(i)
    }

    /// Selects the entry one page further down, at most the last one.
    pub fn next_page(&mut self) -> (action: PreviewAction)
        ensures
            (final(self)@, action@) == old(self)@.moved(old(self)@.position_page_down()),
    {
        if self.filtered_themes.len() == 0 {
            return PreviewAction::Nothing;
        }
        let i = self.selected();
        let last: usize = self.filtered_themes.len() - 1;
        let target: usize = if i < last && last - i > PAGE_SIZE {
            i + PAGE_SIZE
        } else {
            last
        };
        self.move_to(target)
    }

    /// Selects the entry one page further up, at least the first one.
    pub fn previous_page(&mut self) -> (action: PreviewAction)
        ensures
            (final(self)@, action@) == old(self)@.moved(old(self)@.position_page_up()),
    {
        if self.filtered_themes.len() == 0 {
            return PreviewAction::Nothing;
        }
        let i = self.selected();
        let target: usize = if i >= PAGE_SIZE {
            i - PAGE_SIZE
        } else {
            0
        };
        self.move_to(target)
    }

    /// Selects the first entry.
    pub fn first(&mut self) -> (action: PreviewAction)
        ensures
            (final(self)@, action@) == old(self)@.moved(0),
    {
        if self.filtered_themes.len() == 0 {
            return PreviewAction::Nothing;
        }
        self.move_to(0)
    }

    /// Selects the last entry.
    pub fn last(&mut self) -> (action: PreviewAction)
        ensures
            (final(self)@, action@) == old(self)@.moved(
                (old(self)@.filtered_themes.len() - 1) as usize,
            ),
    {
        if self.filtered_themes.len() == 0 {
            return PreviewAction::Nothing;
        }
        let last: usize = self.filtered_themes.len() - 1;
        self.move_to(last)
    }
}

} // verus!

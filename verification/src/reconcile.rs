//! The reconciler: how the outcome of one piece of background work changes
//! the state.
//!
//! Work in the background never touches the state. It ends in one message,
//! and the messages are applied here, one by one, in the order in which they
//! arrive. A message about a preview that the user has left behind changes
//! nothing that is shown.

use crate::actions::{catalog_view, outcome_view};
use crate::app::{without, without_path, App, AppView};
use crate::preview::{PreviewAction, PreviewActionView};
use crate::registry::{find_named, install_merged, is_first_named, merge_installed};
use crate::text::{join, phrase};
use crate::theme::{views, Theme, ThemeView};
use ratatui_image::protocol::StatefulProtocol;
use vstd::prelude::*;
use vstd::string::*;

verus! {

/// Background task result
pub enum TaskResult {
    /// The clone of the named theme has ended.
    InstallComplete(String, Result<(), String>),
    /// The decoding of the image at the given path has ended.
    ImageLoaded(String, Result<StatefulProtocol, String>),
    /// The fetch of the named theme's preview has ended; on success the image
    /// is in the cache at the given path.
    PreviewDownloaded(String, Result<String, String>),
    /// Popularity scores by theme name; where a name occurs twice the later
    /// score counts.
    StarsFetched(Vec<(String, u32)>),
    /// The fetch of the catalog has ended.
    CatalogFetched(Result<Vec<Theme>, String>),
}

/// The kinds of work that is done in the background.
#[derive(Debug, Clone, Copy, PartialEq, Eq, Structural)]
pub enum OperationKind {
    /// A theme is cloned from its repository.
    InstallClone,
    /// The catalog of remote themes is fetched.
    CatalogFetch,
    /// The preview of a theme is fetched or decoded.
    PreviewAcquire,
    /// The popularity of the themes is looked up.
    PopularityLookup,
}

/// A message of the background work as a mathematical value.
pub enum TaskResultView {
    InstallComplete(Seq<char>, Result<(), Seq<char>>),
    ImageLoaded(Seq<char>, Result<StatefulProtocol, Seq<char>>),
    PreviewDownloaded(Seq<char>, Result<Seq<char>, Seq<char>>),
    StarsFetched(Seq<(Seq<char>, u32)>),
    CatalogFetched(Result<Seq<ThemeView>, Seq<char>>),
}

impl TaskResultView {
    /// The kind of work that the message ends.
    pub open spec fn kind(self) -> OperationKind {
        match self {
            TaskResultView::InstallComplete(_, _) => OperationKind::InstallClone,
            TaskResultView::ImageLoaded(_, _) => OperationKind::PreviewAcquire,
            TaskResultView::PreviewDownloaded(_, _) => OperationKind::PreviewAcquire,
            TaskResultView::StarsFetched(_) => OperationKind::PopularityLookup,
            TaskResultView::CatalogFetched(_) => OperationKind::CatalogFetch,
        }
    }

    /// What the work was started for: the name of a theme or the path of an
    /// image. Work on the whole registry has no such target.
    pub open spec fn target(self) -> Option<Seq<char>> {
        match self {
            TaskResultView::InstallComplete(name, _) => Some(name),
            TaskResultView::ImageLoaded(path, _) => Some(path),
            TaskResultView::PreviewDownloaded(name, _) => Some(name),
            TaskResultView::StarsFetched(_) => None,
            TaskResultView::CatalogFetched(_) => None,
        }
    }
}

/// Scores by name, each name as its characters.
pub open spec fn scores(batch: Seq<(String, u32)>) -> Seq<(Seq<char>, u32)> {
    batch.map_values(|p: (String, u32)| (p.0@, p.1))
}

impl View for TaskResult {
    type V = TaskResultView;

    open spec fn view(&self) -> TaskResultView {
        match *self {
            TaskResult::InstallComplete(name, outcome) => TaskResultView::InstallComplete(
                name@,
                outcome_view(outcome),
            ),
            TaskResult::ImageLoaded(path, outcome) => TaskResultView::ImageLoaded(
                path@,
                match outcome {
                    Ok(image) => Ok(image),
                    Err(reason) => Err(reason@),
                },
            ),
            TaskResult::PreviewDownloaded(name, outcome) => TaskResultView::PreviewDownloaded(
                name@,
                match outcome {
                    Ok(path) => Ok(path@),
                    Err(reason) => Err(reason@),
                },
            ),
            TaskResult::StarsFetched(batch) => TaskResultView::StarsFetched(scores(batch@)),
            TaskResult::CatalogFetched(outcome) => TaskResultView::CatalogFetched(
                catalog_view(outcome),
            ),
        }
    }
}

/// The score that a batch reports for a name: the last one it holds for it.
pub open spec fn score_in(batch: Seq<(Seq<char>, u32)>, name: Seq<char>) -> Option<u32>
    decreases batch.len(),
{
    if batch.len() == 0 {
        None
    } else if batch.last().0 == name {
        Some(batch.last().1)
    } else {
        score_in(batch.drop_last(), name)
    }
}

/// A theme with the score that the batch reports for it; a theme that the
/// batch does not name stays as it is.
pub open spec fn rescored(t: ThemeView, batch: Seq<(Seq<char>, u32)>) -> ThemeView {
    match score_in(batch, t.name) {
        Some(n) => ThemeView { stars: Some(n), ..t },
        None => t,
    }
}

/// The registry in which the first theme of the given name has its preview
/// image at `path`.
pub open spec fn with_preview_path(themes: Seq<ThemeView>, name: Seq<char>, path: Seq<char>) -> Seq<
    ThemeView,
> {
    Seq::new(
        themes.len(),
        |i: int|
            if is_first_named(themes, name, i) {
                ThemeView { preview_path: Some(path), ..themes[i] }
            } else {
                themes[i]
            },
    )
}

/// The registry in which the first theme of the given name has no remote
/// preview any more.
pub open spec fn without_preview_url(themes: Seq<ThemeView>, name: Seq<char>) -> Seq<ThemeView> {
    Seq::new(
        themes.len(),
        |i: int|
            if is_first_named(themes, name, i) {
                ThemeView { preview_url: None, ..themes[i] }
            } else {
                themes[i]
            },
    )
}

impl AppView {
    /// The selected theme has the given name.
    pub open spec fn selected_is(self, name: Seq<char>) -> bool {
        match self.selected_theme() {
            Some(t) => t.name == name,
            None => false,
        }
    }

    /// The state once the clone of the theme `name` has ended. `reloaded`
    /// holds the themes found on this machine afterwards, if they could be
    /// read.
    pub open spec fn install_completed(
        self,
        name: Seq<char>,
        outcome: Result<(), Seq<char>>,
        reloaded: Option<Seq<ThemeView>>,
    ) -> AppView {
        let idle = AppView { loading: false, ..self };
        match outcome {
            Ok(_) => {
                let told = idle.with_status("Theme '"@ + name + "' installed!"@);
                match reloaded {
                    Some(local) => (AppView {
                        themes: install_merged(local, self.themes, name),
                        ..told
                    }).refiltered(),
                    None => told,
                }
            },
            Err(reason) => idle.with_status("Install failed: "@ + reason),
        }
    }

    /// The state once the decoding of the image at `path` has ended. The
    /// outcome counts only if the image is still the one awaited.
    pub open spec fn image_loaded(
        self,
        path: Seq<char>,
        outcome: Result<StatefulProtocol, Seq<char>>,
    ) -> AppView {
        let settled = AppView {
            decoding: without(self.decoding, path),
            cache_decoding: without_path(self.cache_decoding, path),
            ..self
        };
        if self.current_preview_path == Some(path) {
            match outcome {
                Ok(image) => AppView {
                    current_preview_image: Some(image),
                    image_loading: false,
                    ..settled
                },
                Err(reason) => AppView {
                    current_preview_image: None,
                    image_loading: false,
                    status_message: Some("Preview failed: "@ + reason),
                    ..settled
                },
            }
        } else {
            settled
        }
    }

    /// The step taken once the fetch of the preview of the theme `name` has
    /// ended.
    ///
    /// A fetched image belongs to the theme from now on, and is shown if the
    /// theme is the selected one. After a failure the theme's preview is not
    /// fetched again.
    pub open spec fn preview_downloaded(
        self,
        name: Seq<char>,
        outcome: Result<Seq<char>, Seq<char>>,
    ) -> (AppView, PreviewActionView) {
        let settled = AppView { fetching: without(self.fetching, name), ..self };
        match outcome {
            Ok(path) => {
                let stored = AppView {
                    themes: with_preview_path(self.themes, name, path),
                    ..settled
                };
                if stored.selected_is(name) {
                    stored.preview_step()
                } else {
                    (stored, PreviewActionView::Nothing)
                }
            },
            Err(reason) => {
                let given_up = AppView {
                    themes: without_preview_url(self.themes, name),
                    status_message: Some("Preview failed: "@ + reason),
                    ..settled
                };
                (
                    if given_up.selected_is(name) {
                        AppView { image_loading: false, ..given_up }
                    } else {
                        given_up
                    },
                    PreviewActionView::Nothing,
                )
            },
        }
    }

    /// The state once a batch of popularity scores has arrived.
    pub open spec fn stars_fetched(self, batch: Seq<(Seq<char>, u32)>) -> AppView {
        AppView { themes: self.themes.map_values(|t: ThemeView| rescored(t, batch)), ..self }
    }

    /// The step that applies one message of the background work.
    pub open spec fn reconciled(self, result: TaskResultView, reloaded: Option<Seq<ThemeView>>) -> (
        AppView,
        PreviewActionView,
    ) {
        match result {
            TaskResultView::InstallComplete(name, outcome) => (
                self.install_completed(name, outcome, reloaded),
                PreviewActionView::Nothing,
            ),
            TaskResultView::ImageLoaded(path, outcome) => (
                self.image_loaded(path, outcome),
                PreviewActionView::Nothing,
            ),
            TaskResultView::PreviewDownloaded(name, outcome) => self.preview_downloaded(
                name,
                outcome,
            ),
            TaskResultView::StarsFetched(batch) => (
                self.stars_fetched(batch),
                PreviewActionView::Nothing,
            ),
            TaskResultView::CatalogFetched(outcome) => (
                self.refreshed(outcome),
                PreviewActionView::Nothing,
            ),
        }
    }
}

impl TaskResult {
    /// The kind of work that the message ends.
    pub fn kind(&self) -> (r: OperationKind)
        ensures
            r == self@.kind(),
    {
        match self {
            TaskResult::InstallComplete(_, _) => OperationKind::InstallClone,
            TaskResult::ImageLoaded(_, _) => OperationKind::PreviewAcquire,
            TaskResult::PreviewDownloaded(_, _) => OperationKind::PreviewAcquire,
            TaskResult::StarsFetched(_) => OperationKind::PopularityLookup,
            TaskResult::CatalogFetched(_) => OperationKind::CatalogFetch,
        }
    }

    /// What the work was started for: the name of a theme or the path of an
    /// image.
    pub fn target(&self) -> (r: Option<&str>)
        ensures
            crate::theme::opt_str(r) == self@.target(),
    {
        match self {
            TaskResult::InstallComplete(name, _) => Some(name.as_str()),
            TaskResult::ImageLoaded(path, _) => Some(path.as_str()),
            TaskResult::PreviewDownloaded(name, _) => Some(name.as_str()),
            TaskResult::StarsFetched(_) => None,
            TaskResult::CatalogFetched(_) => None,
        }
    }
}

/// The themes found on this machine, if they could be read.
pub open spec fn reload_view(reloaded: Option<Vec<Theme>>) -> Option<Seq<ThemeView>> {
    match reloaded {
        Some(local) => Some(views(local@)),
        None => None,
    }
}

/// The score that the batch reports for the name.
pub fn lookup_score(batch: &Vec<(String, u32)>, name: &str) -> (r: Option<u32>)
    ensures
        r == score_in(scores(batch@), name@),
{
    let mut i: usize = batch.len();
    assert(scores(batch@).take(i as int) =~= scores(batch@));
    while i > 0
        invariant
            i <= batch@.len(),
            score_in(scores(batch@), name@) == score_in(scores(batch@).take(i as int), name@),
        decreases i,
    {
        let ghost cur = scores(batch@).take(i as int);
        if batch[i - 1].0.as_str().eq(name) {
            return Some(batch[i - 1].1);
        }
        assert(cur.drop_last() =~= scores(batch@).take(i - 1));
        i = i - 1;
    }
    None
}

impl App {
    /// Whether the selected theme has the given name.
    pub fn selected_is(&self, name: &str) -> (r: bool)
        ensures
            r == self@.selected_is(name@),
    {
        match self.selected_theme() {
            Some(t) => t.name.as_str().eq(name),
            None => false,
        }
    }

    /// Takes the outcome of the clone of the theme `name`. `reloaded` holds
    /// the themes found on this machine afterwards, if they could be read.
    pub fn install_complete(
        &mut self,
        name: &str,
        outcome: Result<(), String>,
        reloaded: Option<Vec<Theme>>,
    )
        ensures
            final(self)@ == old(self)@.install_completed(
                name@,
                outcome_view(outcome),
                reload_view(reloaded),
            ),
    {
        self.loading = false;
        match outcome {
            Ok(_) => {
                self.status_message = Some(phrase("Theme '", name, "' installed!"));
                match reloaded {
                    Some(local) => {
                        self.themes = merge_installed(local, &self.themes, name);
                        self.update_filter();
                    },
                    None => {},
                }
            },
            Err(reason) => {
                self.status_message = Some(join("Install failed: ", reason.as_str()));
            },
        }
    }

    /// Takes the outcome of the decoding of the image at `path`.
    pub fn image_loaded(&mut self, path: &str, outcome: Result<StatefulProtocol, String>)
        ensures
            final(self)@ == old(self)@.image_loaded(
                path@,
                match outcome {
                    Ok(image) => Ok(image),
                    Err(reason) => Err(reason@),
                },
            ),
    {
        let awaited = match &self.current_preview_path {
            Some(current) => current.as_str().eq(path),
            None => false,
        };
        crate::actions::remove_text(&mut self.decoding, path);
        crate::preview::remove_path(&mut self.cache_decoding, path);
        if awaited {
            self.image_loading = false;
            match outcome {
                Ok(image) => {
                    self.current_preview_image = Some(image);
                },
                Err(reason) => {
                    self.current_preview_image = None;
                    self.status_message = Some(join("Preview failed: ", reason.as_str()));
                },
            }
        }
    }

    /// Takes the outcome of the fetch of the preview of the theme `name`.
    pub fn preview_downloaded(&mut self, name: &str, outcome: Result<String, String>) -> (action:
        PreviewAction)
        ensures
            (final(self)@, action@) == old(self)@.preview_downloaded(
                name@,
                match outcome {
                    Ok(path) => Ok(path@),
                    Err(reason) => Err(reason@),
                },
            ),
    {
        crate::actions::remove_text(&mut self.fetching, name);
        let found = find_named(&self.themes, name);
        match outcome {
            Ok(path) => {
                match found {
                    Some(i) => {
                        self.themes[i].preview_path = Some(path);
                    },
                    None => {},
                }
                assert(views(self.themes@) =~= with_preview_path(
                    old(self)@.themes,
                    name@,
                    path@,
                ));
                if self.selected_is(name) {
                    self.load_selected_preview()
                } else {
                    PreviewAction::Nothing
                }
            },
            Err(reason) => {
                match found {
                    Some(i) => {
                        self.themes[i].preview_url = None;
                    },
                    None => {},
                }
                assert(views(self.themes@) =~= without_preview_url(old(self)@.themes, name@));
                self.status_message = Some(join("Preview failed: ", reason.as_str()));
                if self.selected_is(name) {
                    self.image_loading = false;
                }
                PreviewAction::Nothing
            },
        }
    }

    /// Takes a batch of popularity scores.
    pub fn stars_fetched(&mut self, batch: &Vec<(String, u32)>)
        ensures
            final(self)@ == old(self)@.stars_fetched(scores(batch@)),
    {
        let mut i: usize = 0;
        while i < self.themes.len()
            invariant
                i <= self.themes@.len(),
                self.themes@.len() == old(self).themes@.len(),
                forall|k: int|
                    0 <= k < i ==> #[trigger] views(self.themes@)[k] == rescored(
                        old(self)@.themes[k],
                        scores(batch@),
                    ),
                forall|k: int|
                    i <= k < self.themes@.len() ==> #[trigger] self.themes@[k] == old(
                        self,
                    ).themes@[k],
                (AppView { themes: old(self)@.themes, ..self@ }) == old(self)@,
            decreases self.themes@.len() - i,
        {
            let ghost before = self.themes@;
            match lookup_score(batch, self.themes[i].name.as_str()) {
                Some(n) => {
                    self.themes[i].stars = Some(n);
                },
                None => {},
            }
            assert forall|k: int| 0 <= k < i implies #[trigger] views(self.themes@)[k] == rescored(
                old(self)@.themes[k],
                scores(batch@),
            ) by {
                assert(views(before)[k] == rescored(old(self)@.themes[k], scores(batch@)));
            }
            i = i + 1;
        }
        assert(views(self.themes@) =~= old(self)@.themes.map_values(
            |t: ThemeView| rescored(t, scores(batch@)),
        ));
    }

    /// Process one background task result: applies the message and tells
    /// what is to be done for the preview of the selected theme. `reloaded`
    /// holds the themes found on this machine after an install that ended
    /// well, if they could be read.
    pub fn tick(&mut self, result: TaskResult, reloaded: Option<Vec<Theme>>) -> (action:
        PreviewAction)
        ensures
            (final(self)@, action@) == old(self)@.reconciled(result@, reload_view(reloaded)),
    {
        match result {
            TaskResult::InstallComplete(name, outcome) => {
                self.install_complete(name.as_str(), outcome, reloaded);
                PreviewAction::Nothing
            },
            TaskResult::ImageLoaded(path, outcome) => {
                self.image_loaded(path.as_str(), outcome);
                PreviewAction::Nothing
            },
            TaskResult::PreviewDownloaded(name, outcome) => self.preview_downloaded(
                name.as_str(),
                outcome,
            ),
            TaskResult::StarsFetched(batch) => {
                self.stars_fetched(&batch);
                PreviewAction::Nothing
            },
            TaskResult::CatalogFetched(outcome) => {
                self.refresh_remote_themes(outcome);
                PreviewAction::Nothing
            },
        }
    }
}

} // verus!

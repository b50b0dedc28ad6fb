//! What the user asks of the selected theme: to apply, install or delete it,
//! to mark it as a favorite, and to refresh the registry from the catalog.
//!
//! Running a command, cloning a repository and removing a directory are the
//! caller's work. A step here decides whether the work is due and hands out
//! what it needs; a second step takes the outcome.

use crate::app::{text_pairs, texts, unique, without, App, AppView};
use crate::mode::{FilterMode, SortMode};
use crate::preview::{holds_text, unique_texts};
use crate::registry::{catalog_merged, merge_catalog};
use crate::text::{decimal_of, first_chars, join, leading, phrase, push_decimal};
use crate::theme::{opt_text, views, Theme, ThemeStatus, ThemeView};
use ratatui::widgets::ListState;
use vstd::prelude::*;
use vstd::string::*;

verus! {

/// How many characters of a failed command's complaint are shown.
pub const COMPLAINT_LENGTH: usize = 50;

/// A theme to be cloned from its repository.
#[derive(Debug)]
pub struct InstallRequest {
    pub name: String,
    pub url: String,
}

/// An installed theme whose directory is to be removed.
#[derive(Debug)]
pub struct DeleteRequest {
    pub name: String,
    pub path: String,
}

/// The registry after the theme `name` has been applied: every theme of that
/// name is active, and no other theme is.
pub open spec fn activated(themes: Seq<ThemeView>, name: Seq<char>) -> Seq<ThemeView> {
    themes.map_values(
        |t: ThemeView|
            if t.name == name {
                ThemeView { status: ThemeStatus::Active, ..t }
            } else if t.status == ThemeStatus::Active {
                ThemeView { status: ThemeStatus::Installed, ..t }
            } else {
                t
            },
    )
}

/// A theme whose files are gone from this machine.
pub open spec fn uninstalled(t: ThemeView) -> ThemeView {
    ThemeView {
        status: ThemeStatus::Available,
        local_path: None,
        preview_path: None,
        colors: None,
        ..t
    }
}

/// Name and repository of those of the first `n` themes that have a
/// repository, in the order of the registry.
pub open spec fn star_targets(themes: Seq<ThemeView>, n: int) -> Seq<(Seq<char>, Seq<char>)>
    decreases n,
{
    if n <= 0 {
        Seq::<(Seq<char>, Seq<char>)>::empty()
    } else {
        match themes[n - 1].remote_url {
            Some(url) => star_targets(themes, n - 1).push((themes[n - 1].name, url)),
            None => star_targets(themes, n - 1),
        }
    }
}

impl AppView {
    /// The state in which the browser starts: the themes found on this
    /// machine, all of them shown by name, and the first one selected. Of
    /// the favorites each name is kept once.
    pub open spec fn initial(
        config_dir: Seq<char>,
        themes_dir: Seq<char>,
        cache_dir: Seq<char>,
        current_theme: Option<Seq<char>>,
        themes: Seq<ThemeView>,
        favorites: Seq<Seq<char>>,
    ) -> AppView {
        let start = (AppView {
            themes,
            filtered_themes: Seq::<usize>::empty(),
            selected: None,
            filter_mode: FilterMode::All,
            sort_mode: SortMode::Name,
            search_query: Seq::<char>::empty(),
            searching: false,
            show_preview: true,
            status_message: Some("Loading themes..."@),
            themes_dir,
            config_dir,
            cache_dir,
            current_theme,
            loading: false,
            favorites: unique(favorites),
            image_picker: None,
            current_preview_image: None,
            current_preview_path: None,
            image_loading: false,
            fetching: Seq::<Seq<char>>::empty(),
            decoding: Seq::<Seq<char>>::empty(),
            cache_decoding: Seq::<(Seq<char>, Seq<char>)>::empty(),
        }).refiltered();
        if start.filtered_themes.len() > 0 {
            start.with_selected(0)
        } else {
            start
        }
    }

    /// The step taken when the user marks or unmarks the selected theme as a
    /// favorite. With no theme selected nothing happens.
    pub open spec fn favorite_toggled(self) -> AppView {
        match self.selected_theme() {
            None => self,
            Some(t) => if self.favorites.contains(t.name) {
                (AppView {
                    favorites: without(self.favorites, t.name),
                    status_message: Some("Removed '"@ + t.name + "' from favorites"@),
                    ..self
                }).refiltered()
            } else {
                (AppView {
                    favorites: self.favorites.push(t.name),
                    status_message: Some("Added '"@ + t.name + "' to favorites"@),
                    ..self
                }).refiltered()
            },
        }
    }

    /// The step taken when the user asks to apply the selected theme, and the
    /// name of the theme to apply, if the command is to be run.
    pub open spec fn apply_step(self) -> (AppView, Option<Seq<char>>) {
        if self.loading {
            (self.with_status("Please wait, operation in progress..."@), None)
        } else {
            match self.selected_theme() {
                None => (self, None),
                Some(t) => if t.status == ThemeStatus::Available {
                    (
                        self.with_status("Theme not installed. Press 'i' to install first."@),
                        None,
                    )
                } else {
                    (self.with_status("Applying theme: "@ + t.name + "..."@), Some(t.name))
                },
            }
        }
    }

    /// The state once the command that applies the theme `name` has ended:
    /// well, or with the complaint it wrote.
    pub open spec fn applied(self, name: Seq<char>, outcome: Result<(), Seq<char>>) -> AppView {
        match outcome {
            Ok(_) => AppView {
                status_message: Some("Theme '"@ + name + "' applied!"@),
                current_theme: Some(name),
                themes: activated(self.themes, name),
                ..self
            },
            Err(complaint) => self.with_status(
                "Failed: "@ + first_chars(complaint, COMPLAINT_LENGTH as nat),
            ),
        }
    }

    /// The step taken when the user asks to install the selected theme, and
    /// name and repository of the theme to clone, if it is to be cloned.
    pub open spec fn install_step(self) -> (AppView, Option<(Seq<char>, Seq<char>)>) {
        if self.loading {
            (self.with_status("Please wait, installation in progress..."@), None)
        } else {
            match self.selected_theme() {
                None => (self, None),
                Some(t) => if t.status != ThemeStatus::Available {
                    (self.with_status("Theme already installed."@), None)
                } else {
                    match t.remote_url {
                        None => (self.with_status("No remote URL for theme."@), None),
                        Some(url) => (
                            AppView {
                                status_message: Some(
                                    "Installing '"@ + t.name + "'... (please wait)"@,
                                ),
                                loading: true,
                                ..self
                            },
                            Some((t.name, url)),
                        ),
                    }
                },
            }
        }
    }

    /// The step taken when the user asks to delete the selected theme, and
    /// name and directory of the theme to remove, if it is to be removed.
    pub open spec fn delete_step(self) -> (AppView, Option<(Seq<char>, Seq<char>)>) {
        if self.loading {
            (self.with_status("Please wait, operation in progress..."@), None)
        } else {
            match self.selected_theme() {
                None => (self, None),
                Some(t) => if t.status == ThemeStatus::Active {
                    (self.with_status("Cannot delete active theme."@), None)
                } else if t.status == ThemeStatus::Available {
                    (self.with_status("Theme not installed."@), None)
                } else {
                    match t.local_path {
                        None => (self, None),
                        Some(path) => (self, Some((t.name, path))),
                    }
                },
            }
        }
    }

    /// The state once the directory of the selected theme, `name`, has been
    /// removed: the theme is only known remotely again.
    pub open spec fn deleted(self, name: Seq<char>) -> AppView {
        let told = self.with_status("Theme '"@ + name + "' deleted."@);
        match self.selected_index() {
            Some(i) => AppView {
                themes: self.themes.update(i as int, uninstalled(self.themes[i as int])),
                ..told
            },
            None => told,
        }
    }

    /// The state while the catalog is being fetched.
    pub open spec fn refresh_started(self) -> AppView {
        AppView { status_message: Some("Fetching themes..."@), loading: true, ..self }
    }

    /// The state once the catalog has been fetched, or could not be.
    pub open spec fn refreshed(self, outcome: Result<Seq<ThemeView>, Seq<char>>) -> AppView {
        match outcome {
            Ok(remote) => {
                let themes = catalog_merged(self.themes, remote);
                AppView {
                    status_message: Some("Found "@ + decimal_of(themes.len()) + " themes"@),
                    loading: false,
                    ..(AppView { themes, ..self }).refiltered()
                }
            },
            Err(reason) => AppView {
                status_message: Some("Failed to fetch: "@ + reason),
                loading: false,
                ..self
            },
        }
    }
}

/// What the outcome of a fetch of the catalog holds.
pub open spec fn catalog_view(outcome: Result<Vec<Theme>, String>) -> Result<
    Seq<ThemeView>,
    Seq<char>,
> {
    match outcome {
        Ok(themes) => Ok(views(themes@)),
        Err(reason) => Err(reason@),
    }
}

/// What the outcome of a command holds.
pub open spec fn outcome_view(outcome: Result<(), String>) -> Result<(), Seq<char>> {
    match outcome {
        Ok(_) => Ok(()),
        Err(reason) => Err(reason@),
    }
}

/// Name and repository of a theme to clone.
pub open spec fn install_view(request: Option<InstallRequest>) -> Option<(Seq<char>, Seq<char>)> {
    match request {
        Some(r) => Some((r.name@, r.url@)),
        None => None,
    }
}

/// Name and directory of a theme to remove.
pub open spec fn delete_view(request: Option<DeleteRequest>) -> Option<(Seq<char>, Seq<char>)> {
    match request {
        Some(r) => Some((r.name@, r.path@)),
        None => None,
    }
}

/// Removes from the list the texts that equal `x`.
pub fn remove_text(list: &mut Vec<String>, x: &str)
    ensures
        texts(final(list)@) == without(texts(old(list)@), x@),
{
    let mut kept: Vec<String> = Vec::new();
    let mut i: usize = 0;
    while i < list.len()
        invariant
            i <= list@.len(),
            list@ == old(list)@,
            texts(kept@) == without(texts(list@).take(i as int), x@),
        decreases list@.len() - i,
    {
        let ghost head = texts(list@).take(i as int);
        if !list[i].as_str().eq(x) {
            kept.push(list[i].clone());
        }
        i = i + 1;
        assert(texts(list@).take(i as int).drop_last() =~= head);
    }
    assert(texts(list@).take(list@.len() as int) =~= texts(list@));
    *list = kept;
}

impl App {
    /// Create new app instance
    pub fn new(
        config_dir: String,
        themes_dir: String,
        cache_dir: String,
        current_theme: Option<String>,
        local_themes: Vec<Theme>,
        favorites: Vec<String>,
    ) -> (app: Self)
        ensures
            app@ == AppView::initial(
                config_dir@,
                themes_dir@,
                cache_dir@,
                opt_text(current_theme),
                views(local_themes@),
                texts(favorites@),
            ),
            app@.wf(),
    {
        let mut app = App {
            themes: local_themes,
            filtered_themes: Vec::new(),
            list_state: ListState::default(),
            filter_mode: FilterMode::All,
            sort_mode: SortMode::Name,
            search_query: String::new(),
            searching: false,
            show_preview: true,
            status_message: Some(String::from_str("Loading themes...")),
            themes_dir,
            config_dir,
            cache_dir,
            current_theme,
            loading: false,
            favorites: unique_texts(&favorites),
            image_picker: None,
            current_preview_image: None,
            current_preview_path: None,
            image_loading: false,
            fetching: Vec::new(),
            decoding: Vec::new(),
            cache_decoding: Vec::new(),
        };
        assert(texts(app.fetching@) =~= Seq::<Seq<char>>::empty());
        assert(texts(app.decoding@) =~= Seq::<Seq<char>>::empty());
        assert(text_pairs(app.cache_decoding@) =~= Seq::<(Seq<char>, Seq<char>)>::empty());
        app.update_filter();
        if app.filtered_themes.len() > 0 {
            app.list_state.select(Some(0));
        }
        app
    }

    /// Toggle favorite for selected theme. Returns whether the favorites
    /// changed and are to be saved.
    pub fn toggle_favorite(&mut self) -> (changed: bool)
        ensures
            final(self)@ == old(self)@.favorite_toggled(),
            changed == old(self)@.selected_theme() is Some,
            old(self)@.favorites.no_duplicates() ==> final(self)@.favorites.no_duplicates(),
    {
        proof {
            match old(self)@.selected_theme() {
                Some(t) => if old(self)@.favorites.no_duplicates() {
                    crate::app::lemma_without_keeps_unique(old(self)@.favorites, t.name);
                    crate::app::lemma_with_once_keeps_unique(old(self)@.favorites, t.name);
                },
                None => {},
            }
        }
        let name: String = match self.selected_theme() {
            Some(t) => t.name.clone(),
            None => {
                return false;
            },
        };
        if holds_text(&self.favorites, name.as_str()) {
            remove_text(&mut self.favorites, name.as_str());
            self.status_message = Some(phrase("Removed '", name.as_str(), "' from favorites"));
        } else {
            let ghost before = texts(self.favorites@);
            self.favorites.push(name.clone());
            assert(texts(self.favorites@) =~= before.push(name@));
            self.status_message = Some(phrase("Added '", name.as_str(), "' to favorites"));
        }
        self.update_filter();
        true
    }

    /// Apply selected theme: the name of the theme to apply, if the command
    /// is to be run.
    pub fn apply_theme(&mut self) -> (name: Option<String>)
        ensures
            (final(self)@, opt_text(name)) == old(self)@.apply_step(),
    {
        if self.loading {
            self.status_message = Some(String::from_str("Please wait, operation in progress..."));
            return None;
        }
        let (status, name) = match self.selected_theme() {
            Some(t) => (t.status, t.name.clone()),
            None => {
                return None;
            },
        };
        match status {
            ThemeStatus::Available => {
                self.status_message = Some(
                    String::from_str("Theme not installed. Press 'i' to install first."),
                );
                None
            },
            _ => {
                self.status_message = Some(phrase("Applying theme: ", name.as_str(), "..."));
                Some(name)
            },
        }
    }

    /// Takes the outcome of the command that applies the theme `name`: it
    /// ended well, or with the complaint it wrote.
    pub fn theme_applied(&mut self, name: &str, outcome: Result<(), String>)
        ensures
            final(self)@ == old(self)@.applied(name@, outcome_view(outcome)),
    {
        match outcome {
            Ok(_) => {
                self.status_message = Some(phrase("Theme '", name, "' applied!"));
                self.current_theme = Some(String::from_str(name));
                let mut i: usize = 0;
                while i < self.themes.len()
                    invariant
                        i <= self.themes@.len(),
                        self.themes@.len() == old(self).themes@.len(),
                        forall|k: int|
                            0 <= k < i ==> #[trigger] views(self.themes@)[k] == activated(
                                old(self)@.themes,
                                name@,
                            )[k],
                        forall|k: int|
                            i <= k < self.themes@.len() ==> #[trigger] self.themes@[k] == old(
                                self,
                            ).themes@[k],
                        (AppView { themes: old(self)@.themes, ..self@ }) == (AppView {
                            status_message: Some("Theme '"@ + name@ + "' applied!"@),
                            current_theme: Some(name@),
                            ..old(self)@
                        }),
                    decreases self.themes@.len() - i,
                {
                    let ghost before = self.themes@;
                    if self.themes[i].name.as_str().eq(name) {
                        self.themes[i].status = ThemeStatus::Active;
                    } else {
                        let active = match self.themes[i].status {
                            ThemeStatus::Active => true,
                            _ => false,
                        };
                        if active {
                            self.themes[i].status = ThemeStatus::Installed;
                        }
                    }
                    assert forall|k: int| 0 <= k < i implies #[trigger] views(self.themes@)[k]
                        == activated(old(self)@.themes, name@)[k] by {
                        assert(views(before)[k] == activated(old(self)@.themes, name@)[k]);
                    }
                    i = i + 1;
                }
                assert(views(self.themes@) =~= activated(old(self)@.themes, name@));
            },
            Err(complaint) => {
                let shown = leading(complaint.as_str(), COMPLAINT_LENGTH);
                self.status_message = Some(join("Failed: ", shown.as_str()));
            },
        }
    }

    /// Install selected theme: name and repository of the theme to clone, if
    /// it is to be cloned.
    pub fn install_theme(&mut self) -> (request: Option<InstallRequest>)
        ensures
            (final(self)@, install_view(request)) == old(self)@.install_step(),
    {
        if self.loading {
            self.status_message = Some(
                String::from_str("Please wait, installation in progress..."),
            );
            return None;
        }
        let theme: Theme = match self.selected_theme() {
            Some(t) => t.clone(),
            None => {
                return None;
            },
        };
        match theme.status {
            ThemeStatus::Available => {},
            _ => {
                self.status_message = Some(String::from_str("Theme already installed."));
                return None;
            },
        }
        match theme.remote_url {
            None => {
                self.status_message = Some(String::from_str("No remote URL for theme."));
                None
            },
            Some(url) => {
                self.status_message = Some(
                    phrase("Installing '", theme.name.as_str(), "'... (please wait)"),
                );
                self.loading = true;
                Some(InstallRequest { name: theme.name, url })
            },
        }
    }

    /// Delete selected theme: name and directory of the theme to remove, if
    /// it is to be removed.
    pub fn delete_theme(&mut self) -> (request: Option<DeleteRequest>)
        ensures
            (final(self)@, delete_view(request)) == old(self)@.delete_step(),
    {
        if self.loading {
            self.status_message = Some(String::from_str("Please wait, operation in progress..."));
            return None;
        }
        let theme: Theme = match self.selected_theme() {
            Some(t) => t.clone(),
            None => {
                return None;
            },
        };
        match theme.status {
            ThemeStatus::Active => {
                self.status_message = Some(String::from_str("Cannot delete active theme."));
                return None;
            },
            ThemeStatus::Available => {
                self.status_message = Some(String::from_str("Theme not installed."));
                return None;
            },
            ThemeStatus::Installed => {},
        }
        match theme.local_path {
            None => None,
            Some(path) => Some(DeleteRequest { name: theme.name, path }),
        }
    }

    /// Takes note that the directory of the selected theme, `name`, has been
    /// removed.
    pub fn theme_deleted(&mut self, name: &str)
        ensures
            final(self)@ == old(self)@.deleted(name@),
    {
        self.status_message = Some(phrase("Theme '", name, "' deleted."));
        match self.selected_index() {
            Some(i) => {
                self.themes[i].status = ThemeStatus::Available;
                self.themes[i].local_path = None;
                self.themes[i].preview_path = None;
                self.themes[i].colors = None;
                assert(views(self.themes@) =~= old(self)@.themes.update(
                    i as int,
                    uninstalled(old(self)@.themes[i as int]),
                ));
            },
            None => {},
        }
    }

    /// Takes note that the catalog is being fetched.
    pub fn start_refresh(&mut self)
        ensures
            final(self)@ == old(self)@.refresh_started(),
    {
        self.status_message = Some(String::from_str("Fetching themes..."));
        self.loading = true;
    }

    /// Refresh themes from GitHub: takes the outcome of the fetch of the
    /// catalog and merges it into the registry.
    pub fn refresh_remote_themes(&mut self, outcome: Result<Vec<Theme>, String>)
        ensures
            final(self)@ == old(self)@.refreshed(catalog_view(outcome)),
    {
        match outcome {
            Ok(remote) => {
                let mut old_themes: Vec<Theme> = Vec::new();
                std::mem::swap(&mut self.themes, &mut old_themes);
                self.themes = merge_catalog(old_themes, remote);
                self.update_filter();
                let mut message = String::from_str("Found ");
                push_decimal(&mut message, self.themes.len() as u64);
                message.append(" themes");
                self.status_message = Some(message);
            },
            Err(reason) => {
                self.status_message = Some(join("Failed to fetch: ", reason.as_str()));
            },
        }
        self.loading = false;
    }

    /// Fetch GitHub stars for all themes: name and repository of the themes
    /// whose popularity is to be looked up in the background.
    pub fn fetch_stars(&self) -> (r: Vec<(String, String)>)
        ensures
            text_pairs(r@) == star_targets(self@.themes, self@.themes.len() as int),
    {
        let mut out: Vec<(String, String)> = Vec::new();
        let mut i: usize = 0;
        while i < self.themes.len()
            invariant
                i <= self.themes@.len(),
                text_pairs(out@) == star_targets(self@.themes, i as int),
            decreases self.themes@.len() - i,
        {
            match &self.themes[i].remote_url {
                Some(url) => {
                    out.push((self.themes[i].name.clone(), url.clone()));
                },
                None => {},
            }
            i = i + 1;
        }
        out
    }
}

} // verus!

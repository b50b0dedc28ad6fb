//! State and rules of a terminal theme browser.
//!
//! The browser shows a registry of themes: those installed on this machine
//! and those of a curated catalog that can be cloned from their
//! repositories. The user filters, searches and sorts the registry, moves a
//! selection through the list that is shown, and applies, installs or
//! deletes the selected theme. The preview image of the selected theme is
//! decoded, and fetched first where needed, in the background.
//!
//! This crate holds the state and every decision. It reads no file, starts
//! no task and draws nothing. Its caller owns the terminal, the disk, the
//! network and the channel on which background work reports, and drives the
//! state in steps:
//!
//! - a key becomes a [`keys::Command`], and the command a call of a method
//!   of [`app::App`];
//! - a step that needs work done hands out what the work needs: a
//!   [`preview::PreviewAction`], an [`actions::InstallRequest`], the name of
//!   the theme to apply, a [`actions::DeleteRequest`];
//! - the caller does the work, in the background where it may take long,
//!   and reports its end with one [`reconcile::TaskResult`], which
//!   [`app::App::tick`] applies.
//!
//! Work in the background is never cancelled. A report about a preview that
//! the user has left behind is recognised when it arrives and changes
//! nothing that is shown; a preview that is on its way is not asked for a
//! second time.
//!
//! Every step is specified by a function on [`app::AppView`], the state as a
//! mathematical value, and proved to compute it. What holds of the steps
//! whatever the state is proved in [`laws`].

pub mod actions;
pub mod app;
pub mod catalog;
pub mod favorites;
pub mod keys;
pub mod laws;
pub mod local;
pub mod mode;
pub mod order;
pub mod preview;
pub mod reconcile;
pub mod registry;
pub mod remote;
pub mod text;
pub mod theme;
pub mod view;

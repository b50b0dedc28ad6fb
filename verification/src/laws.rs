//! What holds of the browser's steps whatever the state they start from.

use crate::app::{
    cache_decode_of, lemma_visible_is_sound, lemma_with_once_keeps_unique,
    lemma_without_keeps_unique, lemma_without_takes_one, without, without_path, AppView,
};
use crate::local::{themes_among, LocalEntry};
use crate::preview::PreviewActionView;
use crate::reconcile::TaskResultView;
use crate::registry::{
    by_name, carried_over, catalog_added, catalog_merged, has_name, install_merged,
    lemma_name_order_permutes, name_order,
};
use crate::theme::{ThemeStatus, ThemeView};
use ratatui_image::protocol::StatefulProtocol;
use vstd::prelude::*;

verus! {

/// Entry `i` is active and no other entry of the list is.
pub open spec fn sole_active(list: Seq<ThemeView>, i: int) -> bool {
    &&& 0 <= i < list.len()
    &&& list[i].status == ThemeStatus::Active
    &&& forall|j: int| 0 <= j < list.len() && j != i ==> #[trigger] list[j].status
        != ThemeStatus::Active
}

/// Exactly one entry of the list is active.
pub open spec fn one_active(list: Seq<ThemeView>) -> bool {
    exists|i: int| sole_active(list, i)
}

/// Two states show the same preview: the same image, awaited from the same
/// path, with the same sign of loading.
pub open spec fn same_preview(a: AppView, b: AppView) -> bool {
    &&& a.current_preview_image == b.current_preview_image
    &&& a.current_preview_path == b.current_preview_path
    &&& a.image_loading == b.image_loading
}

/// The candidates of the shown list depend on the registry, the favorites,
/// the filter mode and the search alone.
proof fn lemma_candidates_of_same_inputs(a: AppView, b: AppView, n: int)
    requires
        a.themes == b.themes,
        a.favorites == b.favorites,
        a.filter_mode == b.filter_mode,
        a.search_query == b.search_query,
    ensures
        a.candidates(n) == b.candidates(n),
    decreases n,
{
    if n > 0 {
        lemma_candidates_of_same_inputs(a, b, n - 1);
    }
}

/// The shown list holds exactly the positions of the entries that pass the
/// filter, each once, in the order of the sort mode.
pub proof fn law_visible_holds_what_passes(s: AppView)
    requires
        s.themes.len() <= usize::MAX,
    ensures
        forall|k: usize| s.visible().contains(k) <==> k < s.themes.len() && s.passes(s.themes[k as int]),
        s.visible().no_duplicates(),
        vstd::relations::sorted_by(
            s.visible(),
            crate::order::entry_order(s.themes, s.sort_mode.ranking()),
        ),
{
    broadcast use vstd::seq_lib::group_to_multiset_ensures;

    let n = s.themes.len() as int;
    let base = s.candidates(n);
    let leq = crate::order::entry_order(s.themes, s.sort_mode.ranking());
    lemma_visible_is_sound(s);
    crate::app::lemma_candidates_ascend(s, n);
    crate::order::lemma_entry_order_total(s.themes, s.sort_mode.ranking());
    base.lemma_sort_by_ensures(leq);
    assert forall|k: usize| s.visible().contains(k) <==> k < s.themes.len() && s.passes(
        s.themes[k as int],
    ) by {
        assert(s.visible().contains(k) <==> s.visible().to_multiset().count(k) > 0);
    }
}

/// Computing the shown list of a state in which it has just been computed
/// changes nothing: neither the list nor the selection.
pub proof fn law_refilter_is_idempotent(s: AppView)
    ensures
        s.refiltered().refiltered() == s.refiltered(),
{
    let once = s.refiltered();
    lemma_candidates_of_same_inputs(s, once, s.themes.len() as int);
}

/// A selection beyond the end of the newly computed list moves to its last
/// entry; in an empty list nothing stays selected. A selection inside the
/// list stays where it is.
pub proof fn law_selection_is_clamped(s: AppView, position: usize)
    requires
        s.selected == Some(position),
    ensures
        position >= s.visible().len() && s.visible().len() > 0 ==> s.refiltered().selected == Some(
            (s.visible().len() - 1) as usize,
        ),
        s.visible().len() == 0 ==> s.refiltered().selected is None,
        position < s.visible().len() ==> s.refiltered().selected == Some(position),
{
}

/// The newly computed list holds positions of the registry, none twice, and
/// the selection lies inside it.
pub proof fn law_refiltered_is_well_formed(s: AppView)
    requires
        s.themes.len() <= usize::MAX,
        s.records_unique(),
    ensures
        s.refiltered().wf(),
{
    lemma_visible_is_sound(s);
}

/// A move of the selection in a well-formed state leads to a well-formed
/// state, whichever of the six moves it is.
pub proof fn law_moves_stay_inside(s: AppView)
    requires
        s.wf(),
    ensures
        s.moved(s.position_after()).0.wf(),
        s.moved(s.position_before()).0.wf(),
        s.moved(s.position_page_down()).0.wf(),
        s.moved(s.position_page_up()).0.wf(),
        s.moved(0).0.wf(),
        s.moved((s.filtered_themes.len() - 1) as usize).0.wf(),
{
}

/// The themes carried over after an install follow the themes found on this
/// machine, and all of them are only known remotely.
proof fn lemma_carried_over_extends(
    local: Seq<ThemeView>,
    old: Seq<ThemeView>,
    name: Seq<char>,
    n: int,
)
    ensures
        carried_over(local, old, name, n).len() >= local.len(),
        carried_over(local, old, name, n).len() <= local.len() + if n < 0 {
            0
        } else {
            n
        },
        forall|i: int| 0 <= i < local.len() ==> carried_over(local, old, name, n)[i] == local[i],
        forall|i: int|
            local.len() <= i < carried_over(local, old, name, n).len() ==> (#[trigger] carried_over(
                local,
                old,
                name,
                n,
            )[i]).status == ThemeStatus::Available,
    decreases n,
{
    if n > 0 {
        lemma_carried_over_extends(local, old, name, n - 1);
    }
}

/// Sorting a registry by name keeps it at exactly one active entry.
pub proof fn lemma_by_name_keeps_one_active(list: Seq<ThemeView>)
    requires
        list.len() <= usize::MAX,
        one_active(list),
    ensures
        one_active(by_name(list)),
{
    lemma_name_order_permutes(list);
    let i = choose|i: int| sole_active(list, i);
    let order = name_order(list);
    let sorted = by_name(list);
    assert(order.contains(i as usize));
    let k = choose|k: int| 0 <= k < order.len() && order[k] == i as usize;
    assert(sole_active(sorted, k));
}

/// After an install has ended well and the themes on this machine have been
/// read again, exactly one theme of the registry is active, provided that
/// exactly one of the themes found on this machine is.
pub proof fn law_install_keeps_one_active(
    s: AppView,
    name: Seq<char>,
    local: Seq<ThemeView>,
)
    requires
        local.len() + s.themes.len() <= usize::MAX,
        one_active(local),
    ensures
        one_active(s.install_completed(name, Ok(()), Some(local)).themes),
        !s.install_completed(name, Ok(()), Some(local)).loading,
{
    let n = s.themes.len() as int;
    let all = carried_over(local, s.themes, name, n);
    lemma_carried_over_extends(local, s.themes, name, n);
    let i = choose|i: int| sole_active(local, i);
    assert forall|j: int| 0 <= j < all.len() && j != i implies #[trigger] all[j].status
        != ThemeStatus::Active by {
        if j < local.len() {
            assert(all[j] == local[j]);
        }
    }
    assert(sole_active(all, i));
    lemma_by_name_keeps_one_active(all);
}

/// The outcome of decoding an image that is not the one awaited changes
/// nothing that is shown: not the image, not the path awaited, not the sign
/// of loading, not the status line, not the registry.
pub proof fn law_stale_image_is_discarded(
    s: AppView,
    path: Seq<char>,
    outcome: Result<StatefulProtocol, Seq<char>>,
)
    requires
        s.current_preview_path != Some(path),
    ensures
        same_preview(s.image_loaded(path, outcome), s),
        s.image_loaded(path, outcome).status_message == s.status_message,
        s.image_loaded(path, outcome).themes == s.themes,
        s.image_loaded(path, outcome).selected == s.selected,
{
}

/// Once the selection has moved from a theme whose image is being decoded to
/// a theme with another image, the first image's arrival does not touch the
/// preview of the second.
pub proof fn law_left_behind_image_is_discarded(
    s: AppView,
    position: usize,
    outcome: Result<StatefulProtocol, Seq<char>>,
)
    requires
        s.selected_theme() is Some,
        s.selected_theme().unwrap().preview_path is Some,
        s.image_picker is Some,
        s.filtered_themes.len() > 0,
        s.with_selected(position).selected_theme() is Some,
        s.with_selected(position).selected_theme().unwrap().preview_path is Some,
        s.with_selected(position).selected_theme().unwrap().preview_path
            != s.selected_theme().unwrap().preview_path,
    ensures
        ({
            let first = s.selected_theme().unwrap().preview_path.unwrap();
            let second = s.with_selected(position).selected_theme().unwrap().preview_path.unwrap();
            let awaiting = s.preview_step().0;
            let moved_on = awaiting.moved(position).0;
            let after = moved_on.image_loaded(first, outcome);
            &&& awaiting.current_preview_path == Some(first)
            &&& moved_on.current_preview_path == Some(second)
            &&& same_preview(after, moved_on)
        }),
{
}

/// The outcome of fetching the preview of a theme that is not the selected
/// one changes nothing of the preview that is shown, and starts no work.
pub proof fn law_stale_download_is_discarded(
    s: AppView,
    name: Seq<char>,
    outcome: Result<Seq<char>, Seq<char>>,
)
    requires
        match s.selected_theme() {
            Some(t) => t.name != name,
            None => true,
        },
    ensures
        same_preview(s.preview_downloaded(name, outcome).0, s),
        s.preview_downloaded(name, outcome).1 is Nothing,
{
}

/// Asking twice for the preview of the selected theme starts its work once:
/// if the first request starts work in the background, the second starts
/// none, whatever the cache holds at the first request and at the second.
pub proof fn law_second_request_starts_nothing(
    s: AppView,
    first: Option<Seq<char>>,
    second: Option<Seq<char>>,
)
    ensures
        s.preview_step().1.dispatches() ==> s.preview_step().0.preview_step().1 is Nothing,
        s.probe_step(first).1.dispatches() ==> s.probe_step(first).0.probe_step(second).1
            is Nothing,
        s.probe_step(first).1.dispatches() ==> !s.probe_step(first).0.preview_step().1.dispatches(),
{
    let after = s.probe_step(first).0;
    if s.probe_step(first).1.dispatches() {
        let (name, url) = s.remote_preview().unwrap();
        assert(after.remote_preview() == s.remote_preview());
        match first {
            Some(path) => {
                lemma_cache_decode_of_push(s.cache_decoding, name, path, name);
            },
            None => {
                assert(s.fetching.push(name)[s.fetching.len() as int] == name);
            },
        }
    }
    assert forall|list: Seq<Seq<char>>, x: Seq<char>| #[trigger] list.push(x).contains(x) by {
        assert(list.push(x)[list.len() as int] == x);
    }
}

/// The record of cache decodes with one more entry names the path of that
/// entry for its theme, unless it named one before, and names for every
/// other theme what it named before.
pub proof fn lemma_cache_decode_of_push(
    list: Seq<(Seq<char>, Seq<char>)>,
    name: Seq<char>,
    path: Seq<char>,
    other: Seq<char>,
)
    ensures
        cache_decode_of(list.push((name, path)), other) == if cache_decode_of(list, other)
            is Some {
            cache_decode_of(list, other)
        } else if other == name {
            Some(path)
        } else {
            None
        },
    decreases list.len(),
{
    let more = list.push((name, path));
    if list.len() == 0 {
        assert(more.drop_first() =~= list);
    } else {
        assert(more[0] == list[0]);
        assert(more.drop_first() =~= list.drop_first().push((name, path)));
        lemma_cache_decode_of_push(list.drop_first(), name, path, other);
    }
}

/// While work for the preview of the selected theme is under way, be it the
/// fetch or the decoding of the cached image, a request for that preview
/// starts nothing, whatever the cache holds by now, and the work stays on
/// record.
pub proof fn law_request_during_work_starts_nothing(s: AppView, cached: Option<Seq<char>>)
    requires
        s.remote_preview() is Some,
        s.preview_under_way(s.remote_preview().unwrap().0),
    ensures
        s.probe_step(cached).1 is Nothing,
        !s.preview_step().1.dispatches(),
        s.probe_step(cached).0.preview_under_way(s.remote_preview().unwrap().0),
        s.probe_step(cached).0.remote_preview() == s.remote_preview(),
        s.probe_step(cached).0.themes == s.themes,
        s.probe_step(cached).0.image_loading,
{
}

/// While the preview of a theme is being fetched no request fetches it
/// again, and the fetch stays on record: whatever is asked for, and wherever
/// the selection moves.
pub proof fn law_one_fetch_in_flight(
    s: AppView,
    name: Seq<char>,
    cached: Option<Seq<char>>,
    position: usize,
)
    requires
        s.fetching.contains(name),
    ensures
        !(s.preview_step().1 matches PreviewActionView::Fetch { name: n, .. } && n == name),
        !(s.probe_step(cached).1 matches PreviewActionView::Fetch { name: n, .. } && n == name),
        !(s.moved(position).1 matches PreviewActionView::Fetch { name: n, .. } && n == name),
        s.preview_step().0.fetching.contains(name),
        s.probe_step(cached).0.fetching.contains(name),
        s.moved(position).0.fetching.contains(name),
{
    lemma_push_keeps(s.fetching, name);
}

/// While an image is being decoded no request decodes it again, and the
/// decoding stays on record: whatever is asked for, and wherever the
/// selection moves.
pub proof fn law_one_decode_in_flight(
    s: AppView,
    path: Seq<char>,
    cached: Option<Seq<char>>,
    position: usize,
)
    requires
        s.decoding.contains(path),
    ensures
        !(s.preview_step().1 matches PreviewActionView::Decode { path: p } && p == path),
        !(s.probe_step(cached).1 matches PreviewActionView::Decode { path: p } && p == path),
        !(s.moved(position).1 matches PreviewActionView::Decode { path: p } && p == path),
        s.preview_step().0.decoding.contains(path),
        s.probe_step(cached).0.decoding.contains(path),
        s.moved(position).0.decoding.contains(path),
{
    lemma_push_keeps(s.decoding, path);
}

/// Work that a request starts was not under way before, and is on record
/// afterwards.
pub proof fn law_started_work_is_on_record(s: AppView, cached: Option<Seq<char>>)
    ensures
        match s.preview_step().1 {
            PreviewActionView::Decode { path } => !s.decoding.contains(path)
                && s.preview_step().0.decoding.contains(path),
            PreviewActionView::Fetch { name, .. } => false,
            _ => true,
        },
        match s.probe_step(cached).1 {
            PreviewActionView::Decode { path } => !s.decoding.contains(path) && s.probe_step(
                cached,
            ).0.decoding.contains(path),
            PreviewActionView::Fetch { name, .. } => !s.fetching.contains(name) && s.probe_step(
                cached,
            ).0.fetching.contains(name),
            _ => true,
        },
{
    assert forall|list: Seq<Seq<char>>, x: Seq<char>| #[trigger] list.push(x).contains(x) by {
        assert(list.push(x)[list.len() as int] == x);
    }
}

/// The sign that work is in progress is taken down only by the end of that
/// work: no step of the preview, no move of the selection and no message
/// about a preview or about popularity touches it.
pub proof fn law_only_completion_clears_loading(
    s: AppView,
    key: Seq<char>,
    cached: Option<Seq<char>>,
    position: usize,
    image: Result<StatefulProtocol, Seq<char>>,
    download: Result<Seq<char>, Seq<char>>,
    batch: Seq<(Seq<char>, u32)>,
)
    ensures
        s.preview_step().0.loading == s.loading,
        s.probe_step(cached).0.loading == s.loading,
        s.moved(position).0.loading == s.loading,
        s.image_loaded(key, image).loading == s.loading,
        s.preview_downloaded(key, download).0.loading == s.loading,
        s.stars_fetched(batch).loading == s.loading,
        s.refiltered().loading == s.loading,
        s.install_step().1 is Some ==> s.install_step().0.loading,
        forall|outcome: Result<(), Seq<char>>, reloaded: Option<Seq<ThemeView>>|
            !(#[trigger] s.install_completed(key, outcome, reloaded)).loading,
{
}

/// A text that a list holds is still held when another text is added.
proof fn lemma_push_keeps(list: Seq<Seq<char>>, x: Seq<char>)
    requires
        list.contains(x),
    ensures
        forall|y: Seq<char>| #[trigger] list.push(y).contains(x),
{
    let i = choose|i: int| 0 <= i < list.len() && list[i] == x;
    assert forall|y: Seq<char>| #[trigger] list.push(y).contains(x) by {
        assert(list.push(y)[i] == x);
    }
}

/// After the fetch of a theme's preview has failed, the first theme of that
/// name has no remote preview any more, so that selecting it asks for no
/// fetch: neither a look into the cache nor work in the background.
pub proof fn law_failed_preview_is_not_retried(s: AppView, name: Seq<char>, reason: Seq<char>)
    requires
        s.selected_is(name),
        s.selected_theme().unwrap().preview_path is None,
        crate::registry::is_first_named(s.themes, name, s.selected_index().unwrap() as int),
    ensures
        ({
            let after = s.preview_downloaded(name, Err(reason)).0;
            &&& after.selected_theme().unwrap().preview_url is None
            &&& !after.image_loading
            &&& after.preview_step().1 is Nothing
            &&& after.probe_step(None).1 is Nothing
        }),
{
}

/// The message that ends a piece of background work takes it off the
/// record, and leaves the other work on it.
pub proof fn law_completion_clears_the_record(
    s: AppView,
    key: Seq<char>,
    image: Result<StatefulProtocol, Seq<char>>,
    download: Result<Seq<char>, Seq<char>>,
)
    ensures
        !s.image_loaded(key, image).decoding.contains(key),
        forall|i: int|
            0 <= i < s.image_loaded(key, image).cache_decoding.len() ==> (
            #[trigger] s.image_loaded(key, image).cache_decoding[i]).1 != key,
        forall|other: Seq<char>|
            other != key ==> (s.image_loaded(key, image).decoding.contains(other)
                <==> s.decoding.contains(other)),
        s.image_loaded(key, image).fetching == s.fetching,
        !s.preview_downloaded(key, download).0.fetching.contains(key),
        forall|other: Seq<char>|
            other != key ==> (s.preview_downloaded(key, download).0.fetching.contains(other)
                <==> s.fetching.contains(other)),
{
    lemma_without_takes_one(s.decoding, key);
    lemma_without_takes_one(s.fetching, key);
    lemma_without_path_takes_all(s.cache_decoding, key);
    let after = s.preview_downloaded(key, download).0;
    assert(after.fetching == without(s.fetching, key)) by {
        lemma_push_keeps_all(without(s.fetching, key));
    }
    assert forall|other: Seq<char>| other != key implies (after.fetching.contains(other)
        <==> s.fetching.contains(other)) by {}
}

/// A record of cache decodes from which a path has been taken holds no
/// decode of that path.
proof fn lemma_without_path_takes_all(list: Seq<(Seq<char>, Seq<char>)>, path: Seq<char>)
    ensures
        forall|i: int|
            0 <= i < without_path(list, path).len() ==> (#[trigger] without_path(list, path)[i]).1
                != path,
    decreases list.len(),
{
    if list.len() > 0 {
        let head = without_path(list.drop_last(), path);
        let out = without_path(list, path);
        lemma_without_path_takes_all(list.drop_last(), path);
        assert forall|i: int| 0 <= i < out.len() implies (#[trigger] out[i]).1 != path by {
            if i < head.len() {
                assert(out[i] == head[i]);
            }
        }
    }
}

/// Adding a text to a list takes no text away.
proof fn lemma_push_keeps_all(list: Seq<Seq<char>>)
    ensures
        forall|x: Seq<char>, y: Seq<char>| list.contains(x) ==> #[trigger] list.push(y).contains(x),
{
    assert forall|x: Seq<char>, y: Seq<char>| list.contains(x) implies #[trigger] list.push(
        y,
    ).contains(x) by {
        let i = choose|i: int| 0 <= i < list.len() && list[i] == x;
        assert(list.push(y)[i] == x);
    }
}

/// Every step of the reconciler leads from a well-formed state to a
/// well-formed state.
pub proof fn law_reconciling_keeps_well_formed(
    s: AppView,
    result: TaskResultView,
    reloaded: Option<Seq<ThemeView>>,
)
    requires
        s.wf(),
        s.themes.len() <= usize::MAX,
        match reloaded {
            Some(local) => local.len() + s.themes.len() <= usize::MAX,
            None => true,
        },
        match result {
            TaskResultView::CatalogFetched(Ok(remote)) => remote.len() + s.themes.len()
                <= usize::MAX,
            _ => true,
        },
    ensures
        s.reconciled(result, reloaded).0.wf(),
{
    lemma_records_stay_unique(s);
    match result {
        TaskResultView::ImageLoaded(path, outcome) => {
            lemma_without_keeps_unique(s.decoding, path);
        },
        TaskResultView::PreviewDownloaded(name, outcome) => {
            lemma_without_keeps_unique(s.fetching, name);
            let settled = AppView { fetching: without(s.fetching, name), ..s };
            match outcome {
                Ok(path) => {
                    lemma_records_stay_unique(
                        AppView {
                            themes: crate::reconcile::with_preview_path(s.themes, name, path),
                            ..settled
                        },
                    );
                },
                Err(_) => {},
            }
        },
        TaskResultView::CatalogFetched(catalog) => {
            law_requests_keep_well_formed(s, Seq::<char>::empty(), Ok(()), catalog, None);
        },
        TaskResultView::InstallComplete(name, outcome) => {
            match (outcome, reloaded) {
                (Ok(_), Some(local)) => {
                    let merged = install_merged(local, s.themes, name);
                    lemma_carried_over_extends(local, s.themes, name, s.themes.len() as int);
                    lemma_name_order_permutes(
                        carried_over(local, s.themes, name, s.themes.len() as int),
                    );
                    let idle = AppView { loading: false, ..s };
                    let told = idle.with_status("Theme '"@ + name + "' installed!"@);
                    lemma_visible_is_sound(AppView { themes: merged, ..told });
                },
                _ => {},
            }
        },
        _ => {},
    }
}

/// The steps that the user's requests take lead from a well-formed state to
/// a well-formed state.
pub proof fn law_requests_keep_well_formed(
    s: AppView,
    name: Seq<char>,
    outcome: Result<(), Seq<char>>,
    catalog: Result<Seq<ThemeView>, Seq<char>>,
    cached: Option<Seq<char>>,
)
    requires
        s.wf(),
        s.themes.len() <= usize::MAX,
        match catalog {
            Ok(remote) => remote.len() + s.themes.len() <= usize::MAX,
            Err(_) => true,
        },
    ensures
        s.preview_step().0.wf(),
        s.probe_step(cached).0.wf(),
        s.favorite_toggled().wf(),
        s.apply_step().0.wf(),
        s.applied(name, outcome).wf(),
        s.install_step().0.wf(),
        s.delete_step().0.wf(),
        s.deleted(name).wf(),
        s.refresh_started().wf(),
        s.refreshed(catalog).wf(),
{
    lemma_records_stay_unique(s);
    match s.selected_theme() {
        Some(t) => {
            lemma_without_keeps_unique(s.favorites, t.name);
            lemma_with_once_keeps_unique(s.favorites, t.name);
            lemma_visible_is_sound(
                AppView {
                    favorites: without(s.favorites, t.name),
                    status_message: Some("Removed '"@ + t.name + "' from favorites"@),
                    ..s
                },
            );
            lemma_visible_is_sound(
                AppView {
                    favorites: s.favorites.push(t.name),
                    status_message: Some("Added '"@ + t.name + "' to favorites"@),
                    ..s
                },
            );
        },
        None => {},
    }
    match catalog {
        Ok(remote) => {
            lemma_catalog_added_extends(s.themes, remote, remote.len() as int);
            lemma_name_order_permutes(catalog_added(s.themes, remote, remote.len() as int));
            lemma_visible_is_sound(AppView { themes: catalog_merged(s.themes, remote), ..s });
        },
        Err(_) => {},
    }
}

/// Starting work keeps the records of the work at one entry each.
proof fn lemma_records_stay_unique(s: AppView)
    requires
        s.records_unique(),
    ensures
        forall|path: Seq<char>| (#[trigger] s.decode_started(path)).0.records_unique(),
        forall|name: Seq<char>, path: Seq<char>|
            (#[trigger] s.cache_decode_started(name, path)).0.records_unique(),
        forall|name: Seq<char>, url: Seq<char>|
            (#[trigger] s.fetch_started(name, url)).0.records_unique(),
{
    assert forall|path: Seq<char>| (#[trigger] s.decode_started(path)).0.records_unique() by {
        lemma_with_once_keeps_unique(s.decoding, path);
    }
    assert forall|name: Seq<char>, path: Seq<char>|
        (#[trigger] s.cache_decode_started(name, path)).0.records_unique() by {
        lemma_with_once_keeps_unique(s.decoding, path);
    }
    assert forall|name: Seq<char>, url: Seq<char>|
        (#[trigger] s.fetch_started(name, url)).0.records_unique() by {
        lemma_with_once_keeps_unique(s.fetching, name);
    }
}

/// The theme is one of the first `n` themes of the list.
pub open spec fn is_among(list: Seq<ThemeView>, t: ThemeView, n: int) -> bool {
    exists|k: int| 0 <= k < n && k < list.len() && #[trigger] list[k] == t
}

/// The registry with a catalog added begins with the registry, and every
/// theme that follows is one of the catalog.
proof fn lemma_catalog_added_extends(old: Seq<ThemeView>, remote: Seq<ThemeView>, n: int)
    requires
        n <= remote.len(),
    ensures
        catalog_added(old, remote, n).len() >= old.len(),
        catalog_added(old, remote, n).len() <= old.len() + if n < 0 {
            0
        } else {
            n
        },
        forall|i: int| 0 <= i < old.len() ==> catalog_added(old, remote, n)[i] == old[i],
        forall|i: int|
            old.len() <= i < catalog_added(old, remote, n).len() ==> is_among(
                remote,
                #[trigger] catalog_added(old, remote, n)[i],
                n,
            ),
    decreases n,
{
    if n > 0 {
        lemma_catalog_added_extends(old, remote, n - 1);
        let head = catalog_added(old, remote, n - 1);
        let all = catalog_added(old, remote, n);
        assert forall|i: int| old.len() <= i < all.len() implies is_among(
            remote,
            #[trigger] all[i],
            n,
        ) by {
            if i < head.len() {
                assert(is_among(remote, head[i], n - 1));
                let k = choose|k: int|
                    0 <= k < n - 1 && k < remote.len() && #[trigger] remote[k] == head[i];
                assert(remote[k] == all[i]);
            } else {
                assert(remote[n - 1] == all[i]);
            }
        }
    }
}

/// A theme is present on this machine exactly if it has a directory there.
pub open spec fn is_sound(t: ThemeView) -> bool {
    (t.status != ThemeStatus::Available) == (t.local_path is Some)
}

/// Every theme of the list is sound.
pub open spec fn all_sound(list: Seq<ThemeView>) -> bool {
    forall|i: int| 0 <= i < list.len() ==> is_sound(#[trigger] list[i])
}

/// At most one theme of the list is active.
pub open spec fn at_most_one_active(list: Seq<ThemeView>) -> bool {
    forall|i: int, j: int|
        0 <= i < list.len() && 0 <= j < list.len() && (#[trigger] list[i]).status
            == ThemeStatus::Active && (#[trigger] list[j]).status == ThemeStatus::Active ==> i
            == j
}

/// Sorting by name keeps what holds of every theme, and keeps the number of
/// active themes at one at most.
pub proof fn lemma_by_name_keeps_soundness(list: Seq<ThemeView>)
    requires
        list.len() <= usize::MAX,
    ensures
        all_sound(list) ==> all_sound(by_name(list)),
        at_most_one_active(list) ==> at_most_one_active(by_name(list)),
{
    lemma_name_order_permutes(list);
    let order = name_order(list);
    let sorted = by_name(list);
    if at_most_one_active(list) {
        assert forall|i: int, j: int|
            0 <= i < sorted.len() && 0 <= j < sorted.len() && (#[trigger] sorted[i]).status
                == ThemeStatus::Active && (#[trigger] sorted[j]).status
                == ThemeStatus::Active implies i == j by {
            let a = order[i] as int;
        }
    }
}

/// The registry stays sound, and at one active theme at most, through every
/// message of the background work, provided that the themes found on this
/// machine after an install are so.
pub proof fn law_reconciling_keeps_the_registry_sound(
    s: AppView,
    result: TaskResultView,
    reloaded: Option<Seq<ThemeView>>,
)
    requires
        all_sound(s.themes),
        at_most_one_active(s.themes),
        match reloaded {
            Some(local) => local.len() + s.themes.len() <= usize::MAX && all_sound(local)
                && at_most_one_active(local),
            None => true,
        },
        match result {
            TaskResultView::CatalogFetched(Ok(remote)) => remote.len() + s.themes.len()
                <= usize::MAX && all_sound(remote) && forall|i: int|
                0 <= i < remote.len() ==> (#[trigger] remote[i]).status != ThemeStatus::Active,
            _ => true,
        },
    ensures
        all_sound(s.reconciled(result, reloaded).0.themes),
        at_most_one_active(s.reconciled(result, reloaded).0.themes),
{
    let after = s.reconciled(result, reloaded).0.themes;
    match result {
        TaskResultView::CatalogFetched(catalog) => {
            match catalog {
                Ok(remote) => {
                    law_requests_keep_the_registry_sound(s, Seq::<char>::empty(), remote);
                },
                Err(_) => {},
            }
        },
        TaskResultView::InstallComplete(name, outcome) => {
            match (outcome, reloaded) {
                (Ok(_), Some(local)) => {
                    let n = s.themes.len() as int;
                    let all = carried_over(local, s.themes, name, n);
                    lemma_carried_over_extends(local, s.themes, name, n);
                    lemma_carried_over_from_registry(local, s.themes, name, n);
                    assert forall|i: int| 0 <= i < all.len() implies is_sound(#[trigger] all[i]) by {
                        if i < local.len() {
                            assert(all[i] == local[i]);
                        }
                    }
                    assert forall|i: int, j: int|
                        0 <= i < all.len() && 0 <= j < all.len() && (#[trigger] all[i]).status
                            == ThemeStatus::Active && (#[trigger] all[j]).status
                            == ThemeStatus::Active implies i == j by {
                        assert(all[i] == local[i]);
                        assert(all[j] == local[j]);
                    }
                    lemma_by_name_keeps_soundness(all);
                },
                _ => {},
            }
        },
        _ => {},
    }
}

/// Every theme carried over after an install beyond those found on this
/// machine is a theme of the registry.
proof fn lemma_carried_over_from_registry(
    local: Seq<ThemeView>,
    old: Seq<ThemeView>,
    name: Seq<char>,
    n: int,
)
    requires
        n <= old.len(),
    ensures
        forall|i: int|
            local.len() <= i < carried_over(local, old, name, n).len() ==> is_among(
                old,
                #[trigger] carried_over(local, old, name, n)[i],
                n,
            ),
    decreases n,
{
    if n > 0 {
        lemma_carried_over_from_registry(local, old, name, n - 1);
        lemma_carried_over_extends(local, old, name, n - 1);
        let head = carried_over(local, old, name, n - 1);
        let all = carried_over(local, old, name, n);
        assert forall|i: int| local.len() <= i < all.len() implies is_among(
            old,
            #[trigger] all[i],
            n,
        ) by {
            if i < head.len() {
                assert(is_among(old, head[i], n - 1));
                let k = choose|k: int|
                    0 <= k < n - 1 && k < old.len() && #[trigger] old[k] == head[i];
                assert(old[k] == all[i]);
            } else {
                assert(old[n - 1] == all[i]);
            }
        }
    }
}

/// The registry stays sound, and at one active theme at most, when a catalog
/// of remote themes is merged into it and when the selected theme is
/// deleted.
pub proof fn law_requests_keep_the_registry_sound(
    s: AppView,
    name: Seq<char>,
    remote: Seq<ThemeView>,
)
    requires
        all_sound(s.themes),
        at_most_one_active(s.themes),
        remote.len() + s.themes.len() <= usize::MAX,
        all_sound(remote),
        forall|i: int| 0 <= i < remote.len() ==> (#[trigger] remote[i]).status
            != ThemeStatus::Active,
    ensures
        all_sound(s.refreshed(Ok(remote)).themes),
        at_most_one_active(s.refreshed(Ok(remote)).themes),
        all_sound(s.deleted(name).themes),
        at_most_one_active(s.deleted(name).themes),
{
    let n = remote.len() as int;
    let all = catalog_added(s.themes, remote, n);
    lemma_catalog_added_extends(s.themes, remote, n);
    assert forall|i: int| 0 <= i < all.len() implies is_sound(#[trigger] all[i]) by {
        if i < s.themes.len() {
            assert(all[i] == s.themes[i]);
        }
    }
    assert forall|i: int, j: int|
        0 <= i < all.len() && 0 <= j < all.len() && (#[trigger] all[i]).status
            == ThemeStatus::Active && (#[trigger] all[j]).status
            == ThemeStatus::Active implies i == j by {
        assert(all[i] == s.themes[i]);
        assert(all[j] == s.themes[j]);
    }
    lemma_by_name_keeps_soundness(all);
}

/// Once a theme has been applied, it is the one active theme of the
/// registry, provided that the registry holds exactly one theme of its name.
/// The registry stays sound if that theme is present on this machine.
pub proof fn law_applied_theme_is_the_active_one(s: AppView, name: Seq<char>, i: int)
    requires
        crate::registry::is_first_named(s.themes, name, i),
        forall|j: int| 0 <= j < s.themes.len() && j != i ==> (#[trigger] s.themes[j]).name != name,
    ensures
        sole_active(s.applied(name, Ok(())).themes, i),
        s.applied(name, Ok(())).current_theme == Some(name),
        all_sound(s.themes) && s.themes[i].local_path is Some ==> all_sound(
            s.applied(name, Ok(())).themes,
        ),
{
}

/// Among the themes that a scan of the themes directory gives, a theme is
/// active exactly if it bears the name of the theme in use, and every theme
/// has its directory.
pub proof fn law_scan_marks_the_theme_in_use(
    entries: Seq<LocalEntry>,
    current: Option<Seq<char>>,
    n: int,
)
    ensures
        forall|i: int|
            0 <= i < themes_among(entries, current, n).len() ==> ((#[trigger] themes_among(
                entries,
                current,
                n,
            )[i]).status == ThemeStatus::Active <==> Some(themes_among(entries, current, n)[i].name)
                == current),
        all_sound(themes_among(entries, current, n)),
        forall|i: int|
            0 <= i < themes_among(entries, current, n).len() ==> (#[trigger] themes_among(
                entries,
                current,
                n,
            )[i]).status != ThemeStatus::Available,
    decreases n,
{
    if n > 0 {
        law_scan_marks_the_theme_in_use(entries, current, n - 1);
    }
}

/// The names of the themes of the list are pairwise distinct.
pub open spec fn distinct_names(list: Seq<ThemeView>) -> bool {
    forall|i: int, j: int|
        0 <= i < list.len() && 0 <= j < list.len() && i != j ==> (#[trigger] list[i]).name != (
        #[trigger] list[j]).name
}

/// Adding a catalog keeps the names of the registry distinct, and leaves
/// the registry holding the name of every theme of the catalog.
proof fn lemma_catalog_added_names(old: Seq<ThemeView>, remote: Seq<ThemeView>, n: int)
    requires
        n <= remote.len(),
    ensures
        distinct_names(old) ==> distinct_names(catalog_added(old, remote, n)),
        forall|k: int| 0 <= k < n ==> has_name(catalog_added(old, remote, n), #[trigger] remote[k].name),
        forall|x: Seq<char>| has_name(old, x) ==> has_name(catalog_added(old, remote, n), x),
    decreases n,
{
    if n > 0 {
        lemma_catalog_added_names(old, remote, n - 1);
        let head = catalog_added(old, remote, n - 1);
        let all = catalog_added(old, remote, n);
        let t = remote[n - 1];
        assert forall|x: Seq<char>| has_name(head, x) implies has_name(all, x) by {
            let i = choose|i: int| 0 <= i < head.len() && #[trigger] head[i].name == x;
            assert(all[i].name == x);
        }
        if !has_name(head, t.name) {
            assert(all[head.len() as int].name == t.name);
            if distinct_names(old) {
                assert forall|i: int, j: int|
                    0 <= i < all.len() && 0 <= j < all.len() && i != j implies (#[trigger] all[i]).name
                    != (#[trigger] all[j]).name by {
                    if i < head.len() && j < head.len() {
                        assert(all[i] == head[i]);
                        assert(all[j] == head[j]);
                    } else if i < head.len() {
                        assert(head[i].name != t.name);
                    } else {
                        assert(head[j].name != t.name);
                    }
                }
            }
        }
        assert forall|k: int| 0 <= k < n implies has_name(all, #[trigger] remote[k].name) by {
            if k < n - 1 {
                assert(has_name(head, remote[k].name));
            }
        }
    }
}

/// A catalog whose every name the registry holds adds nothing to it.
proof fn lemma_known_catalog_adds_nothing(old: Seq<ThemeView>, remote: Seq<ThemeView>, n: int)
    requires
        n <= remote.len(),
        forall|k: int| 0 <= k < n ==> has_name(old, #[trigger] remote[k].name),
    ensures
        catalog_added(old, remote, n) == old,
    decreases n,
{
    if n > 0 {
        lemma_known_catalog_adds_nothing(old, remote, n - 1);
        assert(has_name(old, remote[n - 1].name));
    }
}

/// Sorting by name keeps the names that the registry holds, and keeps them
/// distinct.
proof fn lemma_by_name_keeps_names(list: Seq<ThemeView>)
    requires
        list.len() <= usize::MAX,
    ensures
        forall|x: Seq<char>| has_name(list, x) ==> has_name(by_name(list), x),
        distinct_names(list) ==> distinct_names(by_name(list)),
{
    lemma_name_order_permutes(list);
    let order = name_order(list);
    let sorted = by_name(list);
    assert forall|x: Seq<char>| has_name(list, x) implies has_name(sorted, x) by {
        let i = choose|i: int| 0 <= i < list.len() && #[trigger] list[i].name == x;
        assert(order.contains(i as usize));
        let k = choose|k: int| 0 <= k < order.len() && order[k] == i as usize;
        assert(sorted[k].name == x);
    }
    if distinct_names(list) {
        assert forall|i: int, j: int|
            0 <= i < sorted.len() && 0 <= j < sorted.len() && i != j implies (
        #[trigger] sorted[i]).name != (#[trigger] sorted[j]).name by {
            assert(order[i] < list.len());
            assert(order[j] < list.len());
            assert(order[i] != order[j]);
            assert(list[order[i] as int].name != list[order[j] as int].name);
        }
    }
}

/// A registry that has been sorted by name stays as it is when it is sorted
/// again.
pub proof fn lemma_by_name_is_idempotent(list: Seq<ThemeView>)
    requires
        list.len() <= usize::MAX,
    ensures
        by_name(by_name(list)) == by_name(list),
{
    broadcast use vstd::seq_lib::group_to_multiset_ensures;

    lemma_name_order_permutes(list);
    let order = name_order(list);
    let sorted = by_name(list);
    let leq = crate::order::entry_order(list, crate::order::Ranking::Key);
    let leq1 = crate::order::entry_order(sorted, crate::order::Ranking::Key);
    crate::order::lemma_entry_order_total(list, crate::order::Ranking::Key);
    crate::order::lemma_entry_order_total(sorted, crate::order::Ranking::Key);
    let all = crate::registry::positions(sorted.len());
    all.lemma_sort_by_ensures(leq1);
    crate::registry::positions(list.len()).lemma_sort_by_ensures(leq);
    assert forall|i: int, j: int| 0 <= i < j < all.len() implies #[trigger] leq1(all[i], all[j]) by {
        assert(leq(order[i], order[j]));
        assert(sorted[i] == list[order[i] as int]);
        assert(sorted[j] == list[order[j] as int]);
    }
    vstd::seq_lib::lemma_sorted_unique(all, all.sort_by(leq1), leq1);
    assert(name_order(sorted) == all);
    assert(by_name(sorted) =~= sorted);
}

/// After an install has ended well and the themes on this machine have been
/// read again, the names of the registry are distinct, provided that those
/// of the themes found on this machine are.
pub proof fn law_install_keeps_names_distinct(s: AppView, name: Seq<char>, local: Seq<ThemeView>)
    requires
        local.len() + s.themes.len() <= usize::MAX,
        distinct_names(local),
    ensures
        distinct_names(s.install_completed(name, Ok(()), Some(local)).themes),
{
    let n = s.themes.len() as int;
    lemma_carried_over_names(local, s.themes, name, n);
    lemma_carried_over_extends(local, s.themes, name, n);
    lemma_by_name_keeps_names(carried_over(local, s.themes, name, n));
}

/// The themes carried over after an install bear names that the themes
/// before them do not bear.
proof fn lemma_carried_over_names(
    local: Seq<ThemeView>,
    old: Seq<ThemeView>,
    name: Seq<char>,
    n: int,
)
    requires
        distinct_names(local),
    ensures
        distinct_names(carried_over(local, old, name, n)),
    decreases n,
{
    if n > 0 {
        lemma_carried_over_names(local, old, name, n - 1);
        let head = carried_over(local, old, name, n - 1);
        let all = carried_over(local, old, name, n);
        let t = old[n - 1];
        if all != head {
            assert(all == head.push(t));
            assert forall|i: int, j: int|
                0 <= i < all.len() && 0 <= j < all.len() && i != j implies (#[trigger] all[i]).name
                != (#[trigger] all[j]).name by {
                if i < head.len() && j < head.len() {
                    assert(all[i] == head[i]);
                    assert(all[j] == head[j]);
                } else if i < head.len() {
                    assert(head[i].name != t.name);
                } else {
                    assert(head[j].name != t.name);
                }
            }
        }
    }
}

/// A refresh from the catalog keeps the names of the registry distinct: a
/// theme that the registry holds already, installed or not, is not added
/// again.
pub proof fn law_refresh_keeps_names_distinct(s: AppView, remote: Seq<ThemeView>)
    requires
        remote.len() + s.themes.len() <= usize::MAX,
        distinct_names(s.themes),
    ensures
        distinct_names(s.refreshed(Ok(remote)).themes),
        forall|k: int|
            0 <= k < remote.len() ==> has_name(
                s.refreshed(Ok(remote)).themes,
                #[trigger] remote[k].name,
            ),
        forall|x: Seq<char>| has_name(s.themes, x) ==> has_name(s.refreshed(Ok(remote)).themes, x),
{
    let n = remote.len() as int;
    let all = catalog_added(s.themes, remote, n);
    lemma_catalog_added_names(s.themes, remote, n);
    lemma_catalog_added_extends(s.themes, remote, n);
    lemma_by_name_keeps_names(all);
    assert(s.refreshed(Ok(remote)).themes == by_name(all));
    assert forall|k: int| 0 <= k < remote.len() implies has_name(
        by_name(all),
        #[trigger] remote[k].name,
    ) by {
        assert(has_name(all, remote[k].name));
    }
    assert forall|x: Seq<char>| has_name(s.themes, x) implies has_name(by_name(all), x) by {
        assert(has_name(all, x));
    }
}

/// Repeating a refresh with the same catalog changes nothing: neither the
/// registry, nor the shown list, nor the selection, nor the status line.
pub proof fn law_refresh_twice_changes_nothing(s: AppView, remote: Seq<ThemeView>)
    requires
        2 * remote.len() + s.themes.len() <= usize::MAX,
    ensures
        s.refreshed(Ok(remote)).refreshed(Ok(remote)) == s.refreshed(Ok(remote)),
{
    let n = remote.len() as int;
    let all = catalog_added(s.themes, remote, n);
    lemma_catalog_added_names(s.themes, remote, n);
    lemma_catalog_added_extends(s.themes, remote, n);
    lemma_by_name_keeps_names(all);
    lemma_name_order_permutes(all);
    let once = s.refreshed(Ok(remote));
    assert(once.themes == by_name(all));
    assert forall|k: int| 0 <= k < n implies has_name(once.themes, #[trigger] remote[k].name) by {
        assert(has_name(all, remote[k].name));
    }
    lemma_known_catalog_adds_nothing(once.themes, remote, n);
    lemma_by_name_is_idempotent(all);
    assert(catalog_merged(once.themes, remote) == once.themes);
    let again = AppView { themes: once.themes, ..once };
    assert(again == once);
    let base = AppView { themes: once.themes, ..s };
    lemma_candidates_of_same_inputs(base, once, once.themes.len() as int);
    assert(once.visible() == base.visible());
    assert(once.refiltered().filtered_themes == once.filtered_themes);
    assert(once.refiltered().selected == once.selected);
}

/// While the cached image of a theme is being decoded, the decoding stays
/// on record under the theme's name through every request and every move of
/// the selection.
pub proof fn law_cache_decode_stays_on_record(
    s: AppView,
    name: Seq<char>,
    cached: Option<Seq<char>>,
    position: usize,
)
    requires
        cache_decode_of(s.cache_decoding, name) is Some,
    ensures
        cache_decode_of(s.preview_step().0.cache_decoding, name) == cache_decode_of(
            s.cache_decoding,
            name,
        ),
        cache_decode_of(s.probe_step(cached).0.cache_decoding, name) == cache_decode_of(
            s.cache_decoding,
            name,
        ),
        cache_decode_of(s.moved(position).0.cache_decoding, name) == cache_decode_of(
            s.cache_decoding,
            name,
        ),
{
    assert forall|other: Seq<char>, path: Seq<char>|
        cache_decode_of(#[trigger] s.cache_decoding.push((other, path)), name) == cache_decode_of(
            s.cache_decoding,
            name,
        ) by {
        lemma_cache_decode_of_push(s.cache_decoding, other, path, name);
    }
}

} // verus!

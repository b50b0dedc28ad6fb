//! The registry as a whole: its order by name, and how newly found themes
//! are merged into it.

use crate::order::{entry_order, lemma_entry_order_total, sort_entries, Ranking};
use crate::theme::{views, Theme, ThemeStatus, ThemeView};
use vstd::prelude::*;
use vstd::string::*;

verus! {

/// The positions of a registry of `n` entries, in ascending order.
pub open spec fn positions(n: nat) -> Seq<usize> {
    Seq::new(n, |i: int| i as usize)
}

/// The positions of a registry in the order of the names of its entries.
/// Entries of the same name stay in the order they had.
pub open spec fn name_order(list: Seq<ThemeView>) -> Seq<usize> {
    positions(list.len()).sort_by(entry_order(list, Ranking::Key))
}

/// A registry sorted by the names of its entries. Entries of the same name
/// stay in the order they had.
pub open spec fn by_name(list: Seq<ThemeView>) -> Seq<ThemeView> {
    name_order(list).map_values(|i: usize| list[i as int])
}

/// Some entry of the list has the given name.
pub open spec fn has_name(list: Seq<ThemeView>, name: Seq<char>) -> bool {
    exists|i: int| 0 <= i < list.len() && #[trigger] list[i].name == name
}

/// Entry `i` is the first one of the list with the given name.
pub open spec fn is_first_named(list: Seq<ThemeView>, name: Seq<char>, i: int) -> bool {
    &&& 0 <= i < list.len()
    &&& list[i].name == name
    &&& forall|j: int| 0 <= j < i ==> #[trigger] list[j].name != name
}

/// The order by name is a rearrangement of the positions of the registry:
/// it holds every position once.
pub proof fn lemma_name_order_permutes(list: Seq<ThemeView>)
    requires
        list.len() <= usize::MAX,
    ensures
        name_order(list).len() == list.len(),
        name_order(list).no_duplicates(),
        forall|k: int| 0 <= k < list.len() ==> #[trigger] name_order(list)[k] < list.len(),
        forall|i: usize| i < list.len() ==> #[trigger] name_order(list).contains(i),
        by_name(list).len() == list.len(),
{
    broadcast use vstd::seq_lib::group_to_multiset_ensures;

    let base = positions(list.len());
    let leq = entry_order(list, Ranking::Key);
    lemma_entry_order_total(list, Ranking::Key);
    base.lemma_sort_by_ensures(leq);
    let out = name_order(list);
    base.lemma_multiset_has_no_duplicates();
    out.lemma_multiset_has_no_duplicates_conv();
    assert(out.len() == base.len()) by {
        vstd::seq_lib::to_multiset_len(out);
        vstd::seq_lib::to_multiset_len(base);
    }
    assert forall|k: int| 0 <= k < list.len() implies #[trigger] out[k] < list.len() by {
        assert(out.to_multiset().count(out[k]) > 0);
    }
    assert forall|i: usize| i < list.len() implies #[trigger] out.contains(i) by {
        assert(base[i as int] == i);
        assert(base.to_multiset().count(i) > 0);
    }
}

/// The themes sorted by name; themes of the same name stay in the order they
/// had.
pub fn sort_by_name(themes: &Vec<Theme>) -> (r: Vec<Theme>)
    ensures
        views(r@) == by_name(views(themes@)),
{
    let mut all: Vec<usize> = Vec::new();
    let mut i: usize = 0;
    while i < themes.len()
        invariant
            i <= themes@.len(),
            all@ == positions(i as nat),
        decreases themes@.len() - i,
    {
        all.push(i);
        i = i + 1;
    }
    let order = sort_entries(themes, Ranking::Key, &all);
    let mut out: Vec<Theme> = Vec::new();
    let mut k: usize = 0;
    while k < order.len()
        invariant
            k <= order@.len(),
            out@.len() == k,
            forall|j: int| 0 <= j < order@.len() ==> #[trigger] order@[j] < themes@.len(),
            forall|j: int| 0 <= j < k ==> #[trigger] out@[j] == themes@[order@[j] as int],
        decreases order@.len() - k,
    {
        out.push(themes[order[k]].clone());
        k = k + 1;
    }
    out
}

/// Whether some theme of the list has the given name.
pub fn holds_name(themes: &Vec<Theme>, name: &str) -> (r: bool)
    ensures
        r == has_name(views(themes@), name@),
{
    let mut i: usize = 0;
    while i < themes.len()
        invariant
            i <= themes@.len(),
            forall|k: int| 0 <= k < i ==> #[trigger] views(themes@)[k].name != name@,
        decreases themes@.len() - i,
    {
        if themes[i].name.as_str().eq(name) {
            assert(views(themes@)[i as int].name == name@);
            return true;
        }
        i = i + 1;
    }
    false
}

/// The position of the first theme of the list with the given name.
pub fn find_named(themes: &Vec<Theme>, name: &str) -> (r: Option<usize>)
    ensures
        match r {
            Some(i) => is_first_named(views(themes@), name@, i as int),
            None => !has_name(views(themes@), name@),
        },
{
    let mut i: usize = 0;
    while i < themes.len()
        invariant
            i <= themes@.len(),
            forall|k: int| 0 <= k < i ==> #[trigger] views(themes@)[k].name != name@,
        decreases themes@.len() - i,
    {
        if themes[i].name.as_str().eq(name) {
            return Some(i);
        }
        i = i + 1;
    }
    None
}

/// The registry after the theme `name` has been installed, before it is
/// sorted: the themes found on this machine, followed by those of the first
/// `n` entries of the registry that are still only known remotely, each name
/// once.
pub open spec fn carried_over(
    local: Seq<ThemeView>,
    old: Seq<ThemeView>,
    name: Seq<char>,
    n: int,
) -> Seq<ThemeView>
    decreases n,
{
    if n <= 0 {
        local
    } else {
        let head = carried_over(local, old, name, n - 1);
        let t = old[n - 1];
        if t.status == ThemeStatus::Available && t.name != name && !has_name(head, t.name) {
            head.push(t)
        } else {
            head
        }
    }
}

/// The registry after the theme `name` has been installed: the themes found
/// on this machine and the other remote themes of the registry, sorted by
/// name.
pub open spec fn install_merged(
    local: Seq<ThemeView>,
    old: Seq<ThemeView>,
    name: Seq<char>,
) -> Seq<ThemeView> {
    by_name(carried_over(local, old, name, old.len() as int))
}

/// The registry with the first `n` themes of a catalog added, before it is
/// sorted: a catalog theme is added unless the registry holds a theme of its
/// name already, be it installed, only known remotely, or added from the
/// catalog just before.
pub open spec fn catalog_added(old: Seq<ThemeView>, remote: Seq<ThemeView>, n: int) -> Seq<
    ThemeView,
>
    decreases n,
{
    if n <= 0 {
        old
    } else {
        let head = catalog_added(old, remote, n - 1);
        let t = remote[n - 1];
        if has_name(head, t.name) {
            head
        } else {
            head.push(t)
        }
    }
}

/// The registry after a catalog has been fetched: the catalog's themes that
/// the registry does not hold yet are added, and the whole is sorted by name.
pub open spec fn catalog_merged(old: Seq<ThemeView>, remote: Seq<ThemeView>) -> Seq<ThemeView> {
    by_name(catalog_added(old, remote, remote.len() as int))
}

/// Merges the themes found on this machine after an install with the remote
/// themes of the registry.
pub fn merge_installed(local: Vec<Theme>, old: &Vec<Theme>, name: &str) -> (r: Vec<Theme>)
    ensures
        views(r@) == install_merged(views(local@), views(old@), name@),
{
    let mut all = local;
    let mut i: usize = 0;
    while i < old.len()
        invariant
            i <= old@.len(),
            views(all@) == carried_over(views(local@), views(old@), name@, i as int),
        decreases old@.len() - i,
    {
        let t = &old[i];
        let remote = match t.status {
            ThemeStatus::Available => true,
            _ => false,
        };
        if remote && !t.name.as_str().eq(name) && !holds_name(&all, t.name.as_str()) {
            all.push(t.clone());
        }
        i = i + 1;
    }
    sort_by_name(&all)
}

/// Merges a fetched catalog into the registry.
pub fn merge_catalog(old: Vec<Theme>, remote: Vec<Theme>) -> (r: Vec<Theme>)
    ensures
        views(r@) == catalog_merged(views(old@), views(remote@)),
{
    let mut all = old;
    let mut i: usize = 0;
    while i < remote.len()
        invariant
            i <= remote@.len(),
            views(all@) == catalog_added(views(old@), views(remote@), i as int),
        decreases remote@.len() - i,
    {
        let t = &remote[i];
        if !holds_name(&all, t.name.as_str()) {
            all.push(t.clone());
        }
        i = i + 1;
    }
    sort_by_name(&all)
}

} // verus!

//! The order in which the entries of a registry are listed, and the sorting
//! of lists of entries by it.

use crate::mode::SortMode;
use crate::text::{
    chars_of, lemma_text_le_antisymmetric, lemma_text_le_total, lemma_text_le_transitive,
    same_text, text_before_or_same, text_le,
};
use crate::theme::{views, Theme, ThemeView};
use vstd::prelude::*;
use vstd::relations::{sorted_by, total_ordering};
use vstd::seq_lib::lemma_sorted_unique;

verus! {

/// What decides the order of two entries.
#[derive(Debug, Clone, Copy, PartialEq, Eq, Structural)]
pub enum Ranking {
    /// The names of the themes, by which the registry itself is kept in
    /// order.
    Key,
    /// The display names of the themes.
    DisplayName,
    /// The popularity of the themes, the more popular first; between themes
    /// of the same popularity, their names.
    Stars,
}

impl SortMode {
    /// What decides the order of the shown list in this mode: by name the
    /// display names, by stars the popularity.
    pub open spec fn ranking(self) -> Ranking {
        match self {
            SortMode::Name => Ranking::DisplayName,
            SortMode::Stars => Ranking::Stars,
        }
    }

    /// What decides the order of the shown list in this mode.
    pub fn ranks_by(&self) -> (r: Ranking)
        ensures
            r == self.ranking(),
    {
        match self {
            SortMode::Name => Ranking::DisplayName,
            SortMode::Stars => Ranking::Stars,
        }
    }
}

/// Entry `a` of the registry is listed before entry `b`, or is `b`.
///
/// The texts that the ranking names are compared in the order of strings; by
/// stars, the higher score comes first and the names decide between equal
/// scores. Entries that are still equal stay in the order of the registry.
pub open spec fn entry_le(themes: Seq<ThemeView>, by: Ranking, a: usize, b: usize) -> bool {
    let x = themes[a as int];
    let y = themes[b as int];
    match by {
        Ranking::DisplayName => if x.display_name != y.display_name {
            text_le(x.display_name, y.display_name)
        } else {
            a <= b
        },
        Ranking::Stars => if x.score() != y.score() {
            x.score() > y.score()
        } else if x.name != y.name {
            text_le(x.name, y.name)
        } else {
            a <= b
        },
        Ranking::Key => if x.name != y.name {
            text_le(x.name, y.name)
        } else {
            a <= b
        },
    }
}

/// The order of the entries of a registry, as a relation.
pub open spec fn entry_order(themes: Seq<ThemeView>, by: Ranking) -> spec_fn(usize, usize) -> bool {
    |a: usize, b: usize| entry_le(themes, by, a, b)
}

/// The order of the entries is total: any two entries are comparable, and
/// only an entry itself is both before and after it.
pub proof fn lemma_entry_order_total(themes: Seq<ThemeView>, by: Ranking)
    ensures
        total_ordering(entry_order(themes, by)),
{
    let r = entry_order(themes, by);
    assert forall|x: usize| #[trigger] r(x, x) by {}
    assert forall|x: usize, y: usize| #[trigger] r(x, y) && #[trigger] r(y, x) implies x == y by {
        let p = themes[x as int];
        let q = themes[y as int];
        if by == Ranking::DisplayName {
            if p.display_name != q.display_name {
                lemma_text_le_antisymmetric(p.display_name, q.display_name);
            }
        } else if p.name != q.name && !(by == Ranking::Stars && p.score() != q.score()) {
            lemma_text_le_antisymmetric(p.name, q.name);
        }
    }
    assert forall|x: usize, y: usize, z: usize| #[trigger] r(x, y) && #[trigger] r(y, z) implies r(
        x,
        z,
    ) by {
        let p = themes[x as int];
        let q = themes[y as int];
        let s = themes[z as int];
        if by == Ranking::DisplayName {
            if p.display_name != q.display_name && q.display_name != s.display_name {
                lemma_text_le_transitive(p.display_name, q.display_name, s.display_name);
                if p.display_name == s.display_name {
                    lemma_text_le_antisymmetric(p.display_name, q.display_name);
                }
            }
        } else if !(by == Ranking::Stars && (p.score() != q.score() || q.score() != s.score())) {
            if p.name != q.name && q.name != s.name {
                lemma_text_le_transitive(p.name, q.name, s.name);
                if p.name == s.name {
                    lemma_text_le_antisymmetric(p.name, q.name);
                }
            }
        }
    }
    assert forall|x: usize, y: usize| #[trigger] r(x, y) || #[trigger] r(y, x) by {
        lemma_text_le_total(themes[x as int].name, themes[y as int].name);
        lemma_text_le_total(themes[x as int].display_name, themes[y as int].display_name);
    }
}

/// The names and the display names of the themes have been taken apart into
/// their characters.
pub(crate) open spec fn keys_of(themes: Seq<Theme>, names: Seq<Vec<char>>, titles: Seq<Vec<char>>) -> bool {
    &&& names.len() == themes.len()
    &&& titles.len() == themes.len()
    &&& forall|i: int| 0 <= i < themes.len() ==> #[trigger] names[i]@ == themes[i].name@
    &&& forall|i: int| 0 <= i < themes.len() ==> #[trigger] titles[i]@ == themes[i].display_name@
}

/// The names and the display names of the themes, each as its characters.
pub(crate) fn text_keys(themes: &Vec<Theme>) -> (keys: (Vec<Vec<char>>, Vec<Vec<char>>))
    ensures
        keys_of(themes@, keys.0@, keys.1@),
{
    let mut names: Vec<Vec<char>> = Vec::new();
    let mut titles: Vec<Vec<char>> = Vec::new();
    let mut i: usize = 0;
    while i < themes.len()
        invariant
            i <= themes@.len(),
            names@.len() == i,
            titles@.len() == i,
            forall|k: int| 0 <= k < i ==> #[trigger] names@[k]@ == themes@[k].name@,
            forall|k: int| 0 <= k < i ==> #[trigger] titles@[k]@ == themes@[k].display_name@,
        decreases themes@.len() - i,
    {
        names.push(chars_of(themes[i].name.as_str()));
        titles.push(chars_of(themes[i].display_name.as_str()));
        i = i + 1;
    }
    (names, titles)
}

/// Whether entry `a` is listed before entry `b`, or is `b`.
pub fn entry_before(themes: &Vec<Theme>, by: Ranking, a: usize, b: usize) -> (r: bool)
    requires
        a < themes@.len(),
        b < themes@.len(),
    ensures
        r == entry_le(views(themes@), by, a, b),
{
    let keys = text_keys(themes);
    keyed_before(themes, &keys.0, &keys.1, by, a, b)
}

/// The entries of `items`, sorted into the order in which they are listed.
pub fn sort_entries(themes: &Vec<Theme>, by: Ranking, items: &Vec<usize>) -> (r: Vec<usize>)
    requires
        forall|i: int| 0 <= i < items@.len() ==> #[trigger] items@[i] < themes@.len(),
    ensures
        r@ == items@.sort_by(entry_order(views(themes@), by)),
        r@.to_multiset() == items@.to_multiset(),
        r@.len() == items@.len(),
        forall|i: int| 0 <= i < r@.len() ==> #[trigger] r@[i] < themes@.len(),
{
    let keys = text_keys(themes);
    sort_keyed(themes, &keys.0, &keys.1, by, items)
}

/// Whether the text `a` comes before the text `b`, or `position` decides
/// between equal texts.
fn text_decides(a: &Vec<char>, b: &Vec<char>, position: bool) -> (r: bool)
    ensures
        r == if a@ != b@ {
            text_le(a@, b@)
        } else {
            position
        },
{
    if !same_text(a, b) {
        text_before_or_same(a, b)
    } else {
        position
    }
}

/// Whether entry `a` is listed before entry `b`, or is `b`, given the names
/// and display names of the themes as characters.
pub(crate) fn keyed_before(
    themes: &Vec<Theme>,
    names: &Vec<Vec<char>>,
    titles: &Vec<Vec<char>>,
    by: Ranking,
    a: usize,
    b: usize,
) -> (r: bool)
    requires
        a < themes@.len(),
        b < themes@.len(),
        keys_of(themes@, names@, titles@),
    ensures
        r == entry_le(views(themes@), by, a, b),
{
    match by {
        Ranking::DisplayName => text_decides(&titles[a], &titles[b], a <= b),
        Ranking::Key => text_decides(&names[a], &names[b], a <= b),
        Ranking::Stars => {
            let sa: u32 = match themes[a].stars {
                Some(n) => n,
                None => 0,
            };
            let sb: u32 = match themes[b].stars {
                Some(n) => n,
                None => 0,
            };
            if sa != sb {
                sa > sb
            } else {
                text_decides(&names[a], &names[b], a <= b)
            }
        },
    }
}

/// The entries of `items`, sorted into the order in which they are listed,
/// given the names and display names of the themes as characters.
pub(crate) fn sort_keyed(
    themes: &Vec<Theme>,
    names: &Vec<Vec<char>>,
    titles: &Vec<Vec<char>>,
    by: Ranking,
    items: &Vec<usize>,
) -> (r: Vec<usize>)
    requires
        keys_of(themes@, names@, titles@),
        forall|i: int| 0 <= i < items@.len() ==> #[trigger] items@[i] < themes@.len(),
    ensures
        r@ == items@.sort_by(entry_order(views(themes@), by)),
        r@.to_multiset() == items@.to_multiset(),
        r@.len() == items@.len(),
        forall|i: int| 0 <= i < r@.len() ==> #[trigger] r@[i] < themes@.len(),
{
    broadcast use vstd::seq_lib::group_to_multiset_ensures;

    let ghost leq = entry_order(views(themes@), by);
    proof {
        lemma_entry_order_total(views(themes@), by);
    }
    let mut out: Vec<usize> = Vec::new();
    let mut k: usize = 0;
    while k < items.len()
        invariant
            k <= items@.len(),
            leq == entry_order(views(themes@), by),
            total_ordering(leq),
            keys_of(themes@, names@, titles@),
            forall|i: int| 0 <= i < items@.len() ==> #[trigger] items@[i] < themes@.len(),
            forall|i: int| 0 <= i < out@.len() ==> #[trigger] out@[i] < themes@.len(),
            sorted_by(out@, leq),
            out@.to_multiset() == items@.take(k as int).to_multiset(),
            out@.len() == k,
        decreases items@.len() - k,
    {
        let x = items[k];
        let mut p: usize = out.len();
        while p > 0 && !keyed_before(themes, names, titles, by, out[p - 1], x)
            invariant
                p <= out@.len(),
                x < themes@.len(),
                leq == entry_order(views(themes@), by),
                total_ordering(leq),
                keys_of(themes@, names@, titles@),
                forall|i: int| 0 <= i < out@.len() ==> #[trigger] out@[i] < themes@.len(),
                forall|j: int| p <= j < out@.len() ==> leq(x, #[trigger] out@[j]),
            decreases p,
        {
            assert(leq(out@[p - 1], x) || leq(x, out@[p - 1]));
            p = p - 1;
        }
        let ghost before = out@;
        out.insert(p, x);
        proof {
            assert forall|i: int, j: int| 0 <= i < j < out@.len() implies #[trigger] leq(
                out@[i],
                out@[j],
            ) by {
                if j == p {
                    assert(leq(before[p - 1], x));
                    if i < p - 1 {
                        assert(leq(before[i], before[p - 1]));
                    }
                }
            }
            assert(items@.take(k + 1) =~= items@.take(k as int).push(x));
            vstd::seq_lib::to_multiset_insert(before, p as int, x);
            vstd::seq_lib::to_multiset_build(items@.take(k as int), x);
        }
        k = k + 1;
    }
    proof {
        assert(items@.take(k as int) =~= items@);
        items@.lemma_sort_by_ensures(leq);
        lemma_sorted_unique(out@, items@.sort_by(leq), leq);
    }
    out
}

} // verus!

//! Filter and sort modes of the theme list.

use vstd::prelude::*;

verus! {

/// Filter mode for theme list
#[derive(Debug, Clone, Copy, PartialEq, Eq, Structural)]
pub enum FilterMode {
    All,
    Installed,
    Available,
    Favorites,
}

impl FilterMode {
    /// The word shown for this mode.
    pub open spec fn label_text(self) -> Seq<char> {
        match self {
            FilterMode::All => "All"@,
            FilterMode::Installed => "Installed"@,
            FilterMode::Available => "Available"@,
            FilterMode::Favorites => "Favorites"@,
        }
    }

    /// The mode that follows this one when the user cycles the filter.
    pub open spec fn successor(self) -> FilterMode {
        match self {
            FilterMode::All => FilterMode::Installed,
            FilterMode::Installed => FilterMode::Available,
            FilterMode::Available => FilterMode::Favorites,
            FilterMode::Favorites => FilterMode::All,
        }
    }

    pub fn label(&self) -> (r: &str)
        ensures
            r@ == self.label_text(),
    {
        match self {
            FilterMode::All => "All",
            FilterMode::Installed => "Installed",
            FilterMode::Available => "Available",
            FilterMode::Favorites => "Favorites",
        }
    }

    pub fn next(&self) -> (r: Self)
        ensures
            r == self.successor(),
    {
        match self {
            FilterMode::All => FilterMode::Installed,
            FilterMode::Installed => FilterMode::Available,
            FilterMode::Available => FilterMode::Favorites,
            FilterMode::Favorites => FilterMode::All,
        }
    }
}

/// Sort mode for theme list
#[derive(Debug, Clone, Copy, PartialEq, Eq, Structural)]
pub enum SortMode {
    Name,
    Stars,
}

impl SortMode {
    /// The word shown for this mode.
    pub open spec fn label_text(self) -> Seq<char> {
        match self {
            SortMode::Name => "Name"@,
            SortMode::Stars => "Stars"@,
        }
    }

    /// The mode that follows this one when the user cycles the order.
    pub open spec fn successor(self) -> SortMode {
        match self {
            SortMode::Name => SortMode::Stars,
            SortMode::Stars => SortMode::Name,
        }
    }

    pub fn label(&self) -> (r: &str)
        ensures
            r@ == self.label_text(),
    {
        match self {
            SortMode::Name => "Name",
            SortMode::Stars => "Stars",
        }
    }

    pub fn next(&self) -> (r: Self)
        ensures
            r == self.successor(),
    {
        match self {
            SortMode::Name => SortMode::Stars,
            SortMode::Stars => SortMode::Name,
        }
    }
}

/// Cycling the filter four times, or the order twice, comes back to the mode
/// it started from.
pub proof fn law_modes_cycle(f: FilterMode, s: SortMode)
    ensures
        f.successor().successor().successor().successor() == f,
        s.successor().successor() == s,
{
}

} // verus!

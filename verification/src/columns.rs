//! A small field catalog for a file-listing table, showing how an
//! application attaches sortability rules to its columns: the name column
//! sorts both ways and starts ascending, the size column only sorts
//! descending, and the icon column is not sortable.

use vstd::prelude::*;
use crate::sorter::Direction;
use crate::sorter::SortBy;
use crate::sorter::Sortable;

verus! {

/// The columns of a file-listing table.
#[derive(Clone, Copy, Debug, PartialEq, Eq, Structural)]
pub enum FileColumn {
    Name,
    Size,
    Icon,
}

impl Sortable for FileColumn {
    open spec fn sort_by_spec(&self) -> SortBy {
        match *self {
            FileColumn::Name => SortBy::Reversible(Direction::Ascending),
            FileColumn::Size => SortBy::Fixed(Direction::Descending),
            FileColumn::Icon => SortBy::Unsortable,
        }
    }

    fn sort_by(&self) -> (r: SortBy)
        ensures
            r == self.sort_by_spec(),
    {
        match *self {
            FileColumn::Name => SortBy::Reversible(Direction::Ascending),
            FileColumn::Size => SortBy::Fixed(Direction::Descending),
            FileColumn::Icon => SortBy::Unsortable,
        }
    }

    fn eq_field(&self, other: &Self) -> (r: bool)
        ensures
            r == (*self == *other),
    {
        *self == *other
    }
}

} // verus!

//! The per-header status a renderer needs: which indicator to draw beside
//! a column title, and whether the column is the active one. The drawing
//! itself — glyphs, colours, markup — is the renderer's business; this
//! module only makes the decision.

use vstd::prelude::*;
use crate::sorter::Direction;
use crate::sorter::SortBy;
use crate::sorter::Sortable;
use crate::sorter::Sorter;

verus! {

/// What a header cell shows beside its title.
#[derive(Clone, Copy, Debug, PartialEq, Eq, Structural)]
pub enum Indicator {
    /// No indicator: the field is unsortable.
    Blank,
    /// An arrow pointing up: the field sorts ascending.
    Up,
    /// An arrow pointing down: the field sorts descending.
    Down,
    /// A double-headed arrow: the field is reversible and inactive.
    UpDown,
}

/// The indicator for a field with rule `rule`, given whether the field is
/// the active one and which direction is active: an unsortable field shows
/// nothing; a fixed field always shows the arrow of its one direction; a
/// reversible field shows the arrow of the active direction while active,
/// and a double-headed arrow while inactive.
pub open spec fn spec_indicator(rule: SortBy, active: bool, direction: Direction) -> Indicator {
    match rule {
        SortBy::Unsortable => Indicator::Blank,
        SortBy::Fixed(Direction::Ascending) => Indicator::Up,
        SortBy::Fixed(Direction::Descending) => Indicator::Down,
        SortBy::Reversible(_) => if !active {
            Indicator::UpDown
        } else if direction == Direction::Ascending {
            Indicator::Up
        } else {
            Indicator::Down
        },
    }
}

/// Returns the indicator for a field with rule `rule`, as
/// [`spec_indicator`] decides it.
pub fn indicator(rule: SortBy, active: bool, direction: Direction) -> (r: Indicator)
    ensures
        r == spec_indicator(rule, active, direction),
{
    match rule {
        SortBy::Unsortable => Indicator::Blank,
        SortBy::Fixed(Direction::Ascending) => Indicator::Up,
        SortBy::Fixed(Direction::Descending) => Indicator::Down,
        SortBy::Reversible(_) => {
            if !active {
                Indicator::UpDown
            } else {
                match direction {
                    Direction::Ascending => Indicator::Up,
                    Direction::Descending => Indicator::Down,
                }
            }
        },
    }
}

impl<F: Sortable> Sorter<F> {
    /// Returns what a renderer needs for `field`'s header: the indicator
    /// to draw, and whether `field` is the active one (to emphasise it).
    pub fn field_status(&self, field: F) -> (r: (Indicator, bool))
        ensures
            r.0 == spec_indicator(
                field.sort_by_spec(),
                self.spec_state().0 == field,
                self.spec_state().1,
            ),
            r.1 == (self.spec_state().0 == field),
    {
        let (active_field, active_direction) = self.get_state();
        let active = active_field.eq_field(&field);
        (indicator(field.sort_by(), active, active_direction), active)
    }
}

} // verus!

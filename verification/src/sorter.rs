//! The sort-state engine: which field a table is sorted by, in which
//! direction, and how a header click transitions that state.

use vstd::prelude::*;

verus! {

/// The two ways a column can be ordered.
#[derive(Clone, Copy, Debug, PartialEq, Eq, Structural)]
pub enum Direction {
    Ascending,
    Descending,
}

impl Direction {
    /// The other direction.
    pub open spec fn spec_opposite(self) -> Direction {
        match self {
            Direction::Ascending => Direction::Descending,
            Direction::Descending => Direction::Ascending,
        }
    }

    /// Returns the other direction.
    #[verifier::when_used_as_spec(spec_opposite)]
    pub fn opposite(self) -> (r: Direction)
        ensures
            r == self.spec_opposite(),
    {
        match self {
            Direction::Ascending => Direction::Descending,
            Direction::Descending => Direction::Ascending,
        }
    }
}

/// How a single field may be sorted.
#[derive(Clone, Copy, Debug, PartialEq, Eq, Structural)]
pub enum SortBy {
    /// The field never participates in sorting.
    Unsortable,
    /// Selecting the field always sorts in the given direction.
    Fixed(Direction),
    /// Selecting the field first sorts in the given default direction;
    /// selecting it again while active flips the direction.
    Reversible(Direction),
}

/// A field identifier that carries its own sortability rule.
///
/// The rule must be a pure function of the field: `sort_by_spec` is that
/// function, and the executable `sort_by` must agree with it. The engine
/// queries the rule on every toggle and never stores it.
pub trait Sortable: Sized + Copy {
    /// The field's sortability rule, as contracts see it.
    spec fn sort_by_spec(&self) -> SortBy;

    /// Returns the field's sortability rule.
    fn sort_by(&self) -> (r: SortBy)
        ensures
            r == self.sort_by_spec(),
    ;

    /// Decides whether two field identifiers name the same field.
    fn eq_field(&self, other: &Self) -> (r: bool)
        ensures
            r == (*self == *other),
    ;
}

/// The state a click on `field` moves `state` to, by the rule table:
/// an unsortable field changes nothing; a fixed field activates itself in
/// its one direction, and a further click changes nothing; a reversible
/// field activates itself in its default direction, and a further click
/// flips the current direction.
pub open spec fn spec_toggle<F: Sortable>(state: (F, Direction), field: F) -> (F, Direction) {
    let active = state.0 == field;
    match field.sort_by_spec() {
        SortBy::Unsortable => state,
        SortBy::Fixed(d) => if active {
            state
        } else {
            (field, d)
        },
        SortBy::Reversible(d) => if active {
            (field, state.1.spec_opposite())
        } else {
            (field, d)
        },
    }
}

/// The engine. It owns one piece of state, the active `(field, direction)`
/// pair, and `toggle_field` is its only transition.
pub struct Sorter<F: Sortable> {
    field: F,
    direction: Direction,
}

impl<F: Sortable> Sorter<F> {
    /// The current `(active field, active direction)` pair.
    pub closed spec fn spec_state(&self) -> (F, Direction) {
        (self.field, self.direction)
    }

    /// Creates an engine sorted by the given seed pair. There is no default
    /// seed: every table starts from a caller-chosen field and direction.
    pub fn new(field: F, direction: Direction) -> (s: Sorter<F>)
        ensures
            s.spec_state() == (field, direction),
    {
        Sorter { field, direction }
    }

    /// Returns the current `(active field, active direction)` pair.
    pub fn get_state(&self) -> (r: (F, Direction))
        ensures
            r == self.spec_state(),
    {
        (self.field, self.direction)
    }

    /// Processes a header click on `field`, following the rule table of
    /// [`spec_toggle`]. Whether `field` is already active is decided before
    /// any mutation. Total: every field with a rule produces a well-defined
    /// transition, including the no-op ones.
    pub fn toggle_field(&mut self, field: F)
        ensures
            final(self).spec_state() == spec_toggle(old(self).spec_state(), field),
    {
        let active = self.field.eq_field(&field);
        match field.sort_by() {
            SortBy::Unsortable => {},
            SortBy::Fixed(d) => {
                if !active {
                    self.field = field;
                    self.direction = d;
                }
            },
            SortBy::Reversible(d) => {
                if active {
                    self.direction = self.direction.opposite();
                } else {
                    self.field = field;
                    self.direction = d;
                }
            },
        }
    }
}

/// Law: a click on an unsortable field never changes the state, whatever
/// the current state is.
pub proof fn lemma_unsortable_is_noop<F: Sortable>(state: (F, Direction), field: F)
    requires
        field.sort_by_spec() == SortBy::Unsortable,
    ensures
        spec_toggle(state, field) == state,
{
}

/// Law: a click on a field fixed to direction `d` leaves the state at
/// `(field, d)`, and a second click changes nothing further. Where the
/// field is already active, its direction must already be `d`: a seed may
/// pair a fixed field with the other direction, and a click then changes
/// nothing at all.
pub proof fn lemma_fixed_selects<F: Sortable>(state: (F, Direction), field: F, d: Direction)
    requires
        field.sort_by_spec() == SortBy::Fixed(d),
        state.0 == field ==> state.1 == d,
    ensures
        spec_toggle(state, field) == (field, d),
        spec_toggle(spec_toggle(state, field), field) == (field, d),
{
}

/// Law: a click on an inactive reversible field activates it in its
/// default direction.
pub proof fn lemma_reversible_activates<F: Sortable>(state: (F, Direction), field: F, d: Direction)
    requires
        field.sort_by_spec() == SortBy::Reversible(d),
        state.0 != field,
    ensures
        spec_toggle(state, field) == (field, d),
{
}

/// Law: a click on the active reversible field flips the direction, and
/// two consecutive clicks return to the original state (involution).
pub proof fn lemma_reversible_flips<F: Sortable>(state: (F, Direction), field: F, d: Direction)
    requires
        field.sort_by_spec() == SortBy::Reversible(d),
        state.0 == field,
    ensures
        spec_toggle(state, field) == (field, state.1.spec_opposite()),
        spec_toggle(spec_toggle(state, field), field) == state,
{
}

/// Law: when a click switches the sort from one field to a different,
/// sortable field, the resulting state depends only on the new field's
/// rule, not on the direction the old field was sorted in.
pub proof fn lemma_switch_ignores_old_direction<F: Sortable>(
    from: F,
    d1: Direction,
    d2: Direction,
    to: F,
)
    requires
        to != from,
        to.sort_by_spec() != SortBy::Unsortable,
    ensures
        spec_toggle((from, d1), to) == spec_toggle((from, d2), to),
        spec_toggle((from, d1), to).0 == to,
{
}

} // verus!

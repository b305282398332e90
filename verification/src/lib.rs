//! A sort-state engine for clickable table headers.
//!
//! A table keeps exactly one active sort at a time: a field and a
//! [`Direction`](sorter::Direction). Clicking a header toggles that state
//! according to the field's [`SortBy`](sorter::SortBy) rule: an unsortable
//! field changes nothing, a fixed field always sorts one way, and a
//! reversible field starts from its default and flips on repeated clicks.
//! The engine only tracks the intent; reordering rows is the caller's job.

mod columns;
mod sorter;
mod status;

pub use columns::FileColumn;
pub use sorter::Direction;
pub use sorter::SortBy;
pub use sorter::Sortable;
pub use sorter::Sorter;
pub use sorter::lemma_fixed_selects;
pub use sorter::lemma_reversible_activates;
pub use sorter::lemma_reversible_flips;
pub use sorter::lemma_switch_ignores_old_direction;
pub use sorter::lemma_unsortable_is_noop;
pub use sorter::spec_toggle;
pub use status::Indicator;
pub use status::indicator;
pub use status::spec_indicator;

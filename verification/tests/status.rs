use sortable::Direction;
use sortable::FileColumn;
use sortable::Indicator;
use sortable::SortBy;
use sortable::Sorter;
use sortable::indicator;

#[test]
fn unsortable_shows_nothing() {
    assert_eq!(
        indicator(SortBy::Unsortable, true, Direction::Ascending),
        Indicator::Blank
    );
    assert_eq!(
        indicator(SortBy::Unsortable, false, Direction::Descending),
        Indicator::Blank
    );
}

#[test]
fn fixed_shows_its_one_arrow() {
    assert_eq!(
        indicator(SortBy::Fixed(Direction::Ascending), false, Direction::Descending),
        Indicator::Up
    );
    assert_eq!(
        indicator(SortBy::Fixed(Direction::Descending), true, Direction::Descending),
        Indicator::Down
    );
}

#[test]
fn reversible_shows_active_direction_or_both_heads() {
    let rule = SortBy::Reversible(Direction::Ascending);
    assert_eq!(indicator(rule, true, Direction::Ascending), Indicator::Up);
    assert_eq!(indicator(rule, true, Direction::Descending), Indicator::Down);
    assert_eq!(indicator(rule, false, Direction::Ascending), Indicator::UpDown);
    assert_eq!(indicator(rule, false, Direction::Descending), Indicator::UpDown);
}

#[test]
fn field_status_reads_the_sorter() {
    let sorter = Sorter::new(FileColumn::Name, Direction::Descending);
    assert_eq!(
        sorter.field_status(FileColumn::Name),
        (Indicator::Down, true)
    );
    assert_eq!(
        sorter.field_status(FileColumn::Size),
        (Indicator::Down, false)
    );
    assert_eq!(
        sorter.field_status(FileColumn::Icon),
        (Indicator::Blank, false)
    );

    let sorter = Sorter::new(FileColumn::Size, Direction::Descending);
    assert_eq!(
        sorter.field_status(FileColumn::Name),
        (Indicator::UpDown, false)
    );
    assert_eq!(
        sorter.field_status(FileColumn::Size),
        (Indicator::Down, true)
    );
}

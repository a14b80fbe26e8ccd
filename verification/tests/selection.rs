use chron_dpi::selection::move_selection_down;
use chron_dpi::selection::move_selection_up;

#[test]
fn selection_up_decrements() {
    assert_eq!(move_selection_up(3), 2);
}

#[test]
fn selection_up_stops_at_first_entry() {
    assert_eq!(move_selection_up(0), 0);
}

#[test]
fn selection_down_increments() {
    assert_eq!(move_selection_down(1, 5), 2);
}

#[test]
fn selection_down_stops_at_last_entry() {
    assert_eq!(move_selection_down(4, 5), 4);
}

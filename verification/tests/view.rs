use sdev::view::prepare_highlights;
use sdev::view::selected_row;
use sdev::view::visible_rows;

#[test]
fn only_the_window_is_requested() {
    assert_eq!(3, visible_rows(3, 10));
    assert_eq!(10, visible_rows(250, 10));
    assert_eq!(0, visible_rows(0, 10));
}

#[test]
fn the_cursor_row_counts_up_from_the_bottom() {
    assert_eq!(20, selected_row(20, 0));
    assert_eq!(17, selected_row(20, 3));
    assert_eq!(0, selected_row(20, 99));
}

#[test]
fn highlight_positions_are_deduplicated_and_ordered() {
    assert_eq!(
        vec![1, 1, 2, 3],
        prepare_highlights(vec![3, 3, 1, 2, 1])
    );
    assert_eq!(Vec::<u32>::new(), prepare_highlights(vec![]));
    assert_eq!(vec![4], prepare_highlights(vec![4, 4, 4]));
}

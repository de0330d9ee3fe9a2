use pogodoro::focus::{ring_next, ring_previous};

#[test]
fn next_then_previous_returns_to_the_original_cursor() {
    for n in 1usize..6 {
        for i in 0..n {
            let moved = ring_next(Some(i), n);
            assert_eq!(ring_previous(moved, n), Some(i));
        }
    }
}

#[test]
fn next_wraps_past_the_last_slot() {
    assert_eq!(ring_next(Some(2), 3), Some(0));
    assert_eq!(ring_next(Some(0), 3), Some(1));
}

#[test]
fn previous_wraps_past_the_first_slot() {
    assert_eq!(ring_previous(Some(0), 3), Some(2));
    assert_eq!(ring_previous(Some(2), 3), Some(1));
}

#[test]
fn moving_from_no_cursor_lands_on_the_first_slot() {
    assert_eq!(ring_next(None, 4), Some(0));
    assert_eq!(ring_previous(None, 4), Some(0));
}

#[test]
fn empty_ring_always_yields_no_cursor() {
    assert_eq!(ring_next(None, 0), None);
    assert_eq!(ring_previous(None, 0), None);
}

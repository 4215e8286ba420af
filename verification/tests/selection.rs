use tgt_core::components::selection::{
    clamp_selection, next_selection, previous_selection, selection_on_midpoint,
};

#[test]
fn clamp_leaves_a_legal_selection_alone() {
    assert_eq!(clamp_selection(None, 0), None);
    assert_eq!(clamp_selection(None, 5), None);
    assert_eq!(clamp_selection(Some(0), 5), Some(0));
    assert_eq!(clamp_selection(Some(4), 5), Some(4));
}

#[test]
fn clamp_falls_back_on_the_last_row() {
    assert_eq!(clamp_selection(Some(5), 5), Some(4));
    assert_eq!(clamp_selection(Some(usize::MAX), 5), Some(4));
    assert_eq!(clamp_selection(Some(1), 1), Some(0));
}

#[test]
fn clamp_unselects_over_an_empty_list() {
    assert_eq!(clamp_selection(Some(0), 0), None);
    assert_eq!(clamp_selection(Some(9), 0), None);
}

#[test]
fn next_selection_steps_down() {
    assert_eq!(next_selection(None, 3), Some(0));
    assert_eq!(next_selection(Some(0), 3), Some(1));
    assert_eq!(next_selection(Some(1), 3), Some(2));
    assert_eq!(next_selection(Some(2), 3), Some(2));
    assert_eq!(next_selection(Some(usize::MAX), 3), Some(2));
    assert_eq!(next_selection(None, 0), None);
    assert_eq!(next_selection(Some(0), 0), None);
}

#[test]
fn previous_selection_steps_up() {
    assert_eq!(previous_selection(None, 3), Some(0));
    assert_eq!(previous_selection(Some(2), 3), Some(1));
    assert_eq!(previous_selection(Some(1), 3), Some(0));
    assert_eq!(previous_selection(Some(0), 3), Some(0));
    assert_eq!(previous_selection(Some(9), 3), Some(1));
    assert_eq!(previous_selection(None, 0), None);
    assert_eq!(previous_selection(Some(0), 0), None);
}

#[test]
fn midpoint_is_half_the_length_rounded_down() {
    assert!(selection_on_midpoint(Some(2), 5));
    assert!(selection_on_midpoint(Some(2), 4));
    assert!(selection_on_midpoint(Some(0), 1));
    assert!(selection_on_midpoint(Some(0), 0));
    assert!(selection_on_midpoint(Some(1), 2));
    assert!(!selection_on_midpoint(Some(1), 5));
    assert!(!selection_on_midpoint(Some(3), 5));
    assert!(!selection_on_midpoint(None, 5));
    assert!(!selection_on_midpoint(None, 0));
}

#[test]
fn steps_down_from_unselected_follow_the_closed_form() {
    for len in 1..6usize {
        let mut selected = None;
        for k in 1..10usize {
            selected = next_selection(selected, len);
            assert_eq!(selected, Some(std::cmp::min(k - 1, len - 1)));
            if k >= len {
                assert_eq!(selected, Some(std::cmp::min(k, len - 1)));
            }
        }
    }
}

#[test]
fn steps_up_never_leave_the_first_row() {
    for len in 1..6usize {
        for start in 0..len {
            let mut selected = Some(start);
            for k in 1..10usize {
                selected = previous_selection(selected, len);
                assert_eq!(selected, Some(start.saturating_sub(k)));
            }
        }
    }
}

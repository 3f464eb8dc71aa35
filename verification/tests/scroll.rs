use skyline::ui::components::post_list::{PostListBase, Slot};
use std::collections::VecDeque;

fn items(heights: &[u16]) -> VecDeque<u16> {
    heights.iter().copied().collect()
}

fn cursor(selected_index: usize, scroll_offset: usize, last_known_height: u16) -> PostListBase {
    PostListBase { selected_index, scroll_offset, last_known_height }
}

/// Rows from the top of the viewport to the bottom of the selected item.
fn span(heights: &VecDeque<u16>, base: &PostListBase) -> u32 {
    let mut rows: u32 = 0;
    let mut i = base.scroll_offset;
    while i <= base.selected_index {
        rows += heights[i] as u32;
        i += 1;
    }
    rows
}

#[test]
fn new_cursor_points_at_the_start() {
    let base = PostListBase::new();
    assert_eq!(base.selected_index, 0);
    assert_eq!(base.scroll_offset, 0);
    assert_eq!(base.last_known_height, 0);
}

#[test]
fn scroll_down_moves_selection_without_scrolling_while_items_fit() {
    let posts = items(&[6, 6, 6, 6]);
    let mut base = cursor(0, 0, 18);
    base.handle_scroll_down(&posts, |h| *h);
    assert_eq!((base.selected_index, base.scroll_offset), (1, 0));
    base.handle_scroll_down(&posts, |h| *h);
    assert_eq!((base.selected_index, base.scroll_offset), (2, 0));
}

#[test]
fn scroll_down_scrolls_until_next_item_fits_exactly() {
    // Three items of six rows fill eighteen rows: the fourth needs one step.
    let posts = items(&[6, 6, 6, 6]);
    let mut base = cursor(2, 0, 18);
    base.handle_scroll_down(&posts, |h| *h);
    assert_eq!((base.selected_index, base.scroll_offset), (3, 1));
}

#[test]
fn scroll_down_skips_several_items_for_a_tall_one() {
    let posts = items(&[3, 3, 3, 10]);
    let mut base = cursor(2, 0, 12);
    base.handle_scroll_down(&posts, |h| *h);
    // 3+3+3+10 = 19, 16, 13 do not fit into 12 rows; 10 does.
    assert_eq!((base.selected_index, base.scroll_offset), (3, 3));
}

#[test]
fn scroll_down_is_a_no_op_on_the_last_item() {
    let posts = items(&[6, 6]);
    let mut base = cursor(1, 0, 18);
    base.handle_scroll_down(&posts, |h| *h);
    assert_eq!((base.selected_index, base.scroll_offset), (1, 0));
    let single = items(&[6]);
    let mut base = cursor(0, 0, 18);
    base.handle_scroll_down(&single, |h| *h);
    assert_eq!((base.selected_index, base.scroll_offset), (0, 0));
}

#[test]
fn scroll_down_stops_at_the_last_item_when_the_item_never_fits() {
    let posts = items(&[6, 6, 6, 6, 6]);
    let mut base = cursor(0, 0, 5);
    base.handle_scroll_down(&posts, |h| *h);
    assert_eq!(base.selected_index, 1);
    assert_eq!(base.scroll_offset, 4);
}

#[test]
fn scroll_down_leaves_a_viewport_below_the_selection_alone() {
    let posts = items(&[6, 6, 6, 6, 6]);
    let mut base = cursor(0, 3, 18);
    base.handle_scroll_down(&posts, |h| *h);
    assert_eq!((base.selected_index, base.scroll_offset), (1, 3));
}

#[test]
fn scroll_down_keeps_selection_unclipped_over_ten_items() {
    let posts = items(&[6; 10]);
    let mut base = cursor(0, 0, 18);
    for step in 1..=8usize {
        base.handle_scroll_down(&posts, |h| *h);
        assert_eq!(base.selected_index, step);
        assert!(base.scroll_offset <= base.selected_index);
        assert!(span(&posts, &base) <= 18);
    }
    assert_eq!(base.selected_index, 8);
    assert_eq!(base.scroll_offset, 6);
}

#[test]
fn scroll_down_never_passes_the_end_however_often_it_is_called() {
    let posts = items(&[4, 7, 2, 9, 5, 3]);
    let mut base = cursor(0, 0, 10);
    for _ in 0..20 {
        base.handle_scroll_down(&posts, |h| *h);
        assert!(base.selected_index <= posts.len() - 1);
        assert!(base.scroll_offset <= base.selected_index);
        assert!(span(&posts, &base) <= 10);
    }
    assert_eq!(base.selected_index, 5);
}

#[test]
fn scroll_down_below_counts_the_rows_above_the_list() {
    let posts = items(&[6, 6, 6, 6]);
    // Eight rows of profile and two posts need twenty rows.
    let mut base = cursor(0, 0, 18);
    base.scroll_down_below(&posts, |h| *h, 8);
    assert_eq!((base.selected_index, base.scroll_offset), (1, 1));
    let mut base = cursor(0, 0, 20);
    base.scroll_down_below(&posts, |h| *h, 8);
    assert_eq!((base.selected_index, base.scroll_offset), (1, 0));
}

#[test]
fn scroll_up_moves_selection_and_snaps_viewport() {
    let mut base = cursor(3, 3, 18);
    base.handle_scroll_up();
    assert_eq!((base.selected_index, base.scroll_offset), (2, 2));
    let mut base = cursor(3, 1, 18);
    base.handle_scroll_up();
    assert_eq!((base.selected_index, base.scroll_offset), (2, 1));
}

#[test]
fn scroll_up_is_a_no_op_on_the_first_item() {
    let mut base = cursor(0, 0, 18);
    base.handle_scroll_up();
    assert_eq!((base.selected_index, base.scroll_offset), (0, 0));
}

#[test]
fn scroll_up_then_down_restores_the_selection() {
    let posts = items(&[4, 7, 2, 9, 5, 3]);
    for selected in 1..posts.len() {
        for offset in 0..=selected {
            let mut base = cursor(selected, offset, 10);
            base.handle_scroll_up();
            base.handle_scroll_down(&posts, |h| *h);
            assert_eq!(base.selected_index, selected);
        }
    }
}

#[test]
fn last_visible_index_is_the_last_item_that_fits() {
    let posts = items(&[6, 6, 6, 6]);
    let base = cursor(0, 0, 0);
    assert_eq!(base.last_visible_index(&posts, |h| *h, 0, 18), 2);
    assert_eq!(base.last_visible_index(&posts, |h| *h, 0, 17), 1);
    assert_eq!(base.last_visible_index(&posts, |h| *h, 0, 100), 3);
    // Nothing fits: the first drawn item is the answer.
    assert_eq!(base.last_visible_index(&posts, |h| *h, 0, 5), 0);
    let base = cursor(2, 2, 0);
    assert_eq!(base.last_visible_index(&posts, |h| *h, 0, 6), 2);
    assert_eq!(base.last_visible_index(&posts, |h| *h, 0, 12), 3);
    // Rows above the list count while the viewport starts at the top.
    let base = cursor(0, 0, 0);
    assert_eq!(base.last_visible_index(&posts, |h| *h, 8, 18), 0);
    assert_eq!(base.last_visible_index(&posts, |h| *h, 8, 20), 1);
    let empty = items(&[]);
    assert_eq!(base.last_visible_index(&empty, |h| *h, 0, 18), 0);
}

#[test]
fn rows_before_sums_the_first_items() {
    let posts = items(&[4, 7, 2]);
    assert_eq!(PostListBase::rows_before(&posts, |h| *h, 0), 0);
    assert_eq!(PostListBase::rows_before(&posts, |h| *h, 2), 11);
    assert_eq!(PostListBase::rows_before(&posts, |h| *h, 3), 13);
    assert_eq!(PostListBase::rows_before(&posts, |h| *h, 9), 13);
}

#[test]
fn visible_slots_clip_the_last_item() {
    let posts = items(&[6, 6, 6, 6]);
    let base = cursor(1, 1, 0);
    let slots = base.visible_slots(&posts, |h| *h, 0, 2, 14);
    assert_eq!(
        slots,
        vec![
            Slot { index: 1, y: 2, height: 6 },
            Slot { index: 2, y: 8, height: 6 },
            Slot { index: 3, y: 14, height: 2 },
        ]
    );
    let none = base.visible_slots(&posts, |h| *h, 0, 2, 0);
    assert!(none.is_empty());
    let base = cursor(0, 0, 0);
    let below_profile = base.visible_slots(&posts, |h| *h, 8, 0, 15);
    assert_eq!(
        below_profile,
        vec![Slot { index: 0, y: 8, height: 6 }, Slot { index: 1, y: 14, height: 1 }]
    );
}

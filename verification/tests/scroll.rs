use tutor_chat::scroll::ScrollState;
use tutor_chat::scroll::VISIBLE_BUFFER;

fn model(heights: &[u32]) -> ScrollState {
    let mut scroll = ScrollState::new(50);
    for (i, h) in heights.iter().enumerate() {
        scroll.record_measured_height(i, *h);
    }
    scroll
}

fn heights_of(scroll: &ScrollState) -> Vec<u32> {
    (0..scroll.item_count()).map(|i| scroll.height_of(i)).collect()
}

#[test]
fn new_model_is_empty_and_follows_the_end() {
    let scroll = ScrollState::new(50);
    assert_eq!(scroll.item_count(), 0);
    assert_eq!(scroll.total_height(), 0);
    assert_eq!(scroll.estimated_default_height(), 50);
    assert_eq!(scroll.viewport_height(), 0);
    assert_eq!(scroll.scroll_offset(), 0);
    assert!(scroll.stick_to_bottom());
}

#[test]
fn the_buffer_is_two_items() {
    assert_eq!(VISIBLE_BUFFER, 2);
}

#[test]
fn recording_beyond_the_end_fills_the_gap_with_the_default() {
    let mut scroll = ScrollState::new(50);
    scroll.record_measured_height(3, 120);
    assert_eq!(heights_of(&scroll), vec![50, 50, 50, 120]);
    assert_eq!(scroll.total_height(), 270);
    assert_eq!(scroll.height_of(9), 50);
}

#[test]
fn recording_replaces_an_estimate_and_keeps_the_others() {
    let mut scroll = model(&[10, 20, 30]);
    scroll.record_measured_height(1, 200);
    assert_eq!(heights_of(&scroll), vec![10, 200, 30]);
    assert_eq!(scroll.total_height(), 240);
    scroll.record_measured_height(1, 0);
    assert_eq!(heights_of(&scroll), vec![10, 0, 30]);
    assert_eq!(scroll.total_height(), 40);
}

#[test]
fn total_is_the_sum_after_every_recording() {
    let mut scroll = ScrollState::new(7);
    let calls: [(usize, u32); 8] =
        [(2, 5), (0, 1), (5, 9), (2, 0), (5, u32::MAX), (6, u32::MAX), (1, 3), (0, 0)];
    for (index, height) in calls {
        scroll.record_measured_height(index, height);
        let sum: u128 = heights_of(&scroll).iter().map(|h| *h as u128).sum();
        assert_eq!(scroll.total_height(), sum);
    }
    assert_eq!(heights_of(&scroll), vec![0, 3, 0, 7, 7, u32::MAX, u32::MAX]);
    assert_eq!(scroll.total_height(), 17 + 2 * (u32::MAX as u128));
}

#[test]
fn ensure_item_count_grows_and_never_shrinks() {
    let mut scroll = model(&[10, 20]);
    scroll.ensure_item_count(4);
    assert_eq!(heights_of(&scroll), vec![10, 20, 50, 50]);
    assert_eq!(scroll.total_height(), 130);
    scroll.ensure_item_count(1);
    assert_eq!(heights_of(&scroll), vec![10, 20, 50, 50]);
    scroll.ensure_item_count(0);
    assert_eq!(scroll.item_count(), 4);
}

#[test]
fn no_items_give_an_empty_range() {
    let scroll = ScrollState::new(50);
    assert_eq!(scroll.visible_range(0, 600), (0, 0));
    assert_eq!(scroll.visible_range(1000, 600), (0, 0));
}

#[test]
fn offset_beyond_the_content_gives_an_empty_range_at_the_end() {
    let scroll = model(&[100, 100, 100]);
    assert_eq!(scroll.visible_range(301, 50), (3, 3));
    assert_eq!(scroll.visible_range(u64::MAX, u64::MAX), (3, 3));
}

#[test]
fn range_at_the_top_starts_at_zero() {
    let scroll = model(&[100; 10]);
    // tops: 0, 100, 200, ...; the first top beyond 0 is that of item 1;
    // the first bottom beyond 250 from there on is that of item 2.
    assert_eq!(scroll.visible_range(0, 250), (0, 4));
}

#[test]
fn range_in_the_middle_has_the_buffer_on_both_sides() {
    let scroll = model(&[100; 10]);
    // the first top beyond 450 is that of item 5 (500); the first bottom
    // beyond 650 from there on is that of item 6 (700).
    assert_eq!(scroll.visible_range(450, 200), (3, 8));
    // item 4 is the one that the offset cuts; items 4, 5, 6 overlap.
    let (start, end) = scroll.visible_range(450, 200);
    assert!(start <= 4 && 6 < end);
}

#[test]
fn range_near_the_end_is_capped_at_the_item_count() {
    let scroll = model(&[100; 10]);
    assert_eq!(scroll.visible_range(850, 500), (7, 10));
    assert_eq!(scroll.visible_range(1000, 10), (8, 10));
}

#[test]
fn range_with_an_exact_boundary_goes_by_strictly_beyond() {
    let scroll = model(&[100; 10]);
    // top of item 3 is 300, not beyond 300; top of item 4 is.
    // bottom of item 4 is 500, not beyond 500; bottom of item 5 is.
    assert_eq!(scroll.visible_range(300, 200), (2, 7));
}

#[test]
fn items_of_height_zero_are_passed_over() {
    let scroll = model(&[0, 0, 0, 10, 0, 0, 10]);
    // tops: 0,0,0,0,10,10,10; first top beyond 5 is item 4;
    // bottoms from item 4: 10, 10, 20; first beyond 9 is item 4.
    assert_eq!(scroll.visible_range(5, 4), (2, 6));
}

#[test]
fn unmeasured_items_count_with_the_default_estimate() {
    let mut scroll = ScrollState::new(50);
    scroll.ensure_item_count(6);
    assert_eq!(scroll.total_height(), 300);
    assert_eq!(scroll.visible_range(120, 60), (1, 5));
}

#[test]
fn same_question_same_answer() {
    let scroll = model(&[30, 70, 10, 90, 40, 60]);
    let first = scroll.visible_range(95, 120);
    for _ in 0..5 {
        assert_eq!(scroll.visible_range(95, 120), first);
    }
}

#[test]
fn range_is_a_range_of_items_for_every_offset() {
    let scroll = model(&[30, 0, 70, 10, 90, 40, 60, 5, 5, 5]);
    for offset in 0..400u64 {
        for viewport in [0u64, 1, 50, 150, 1000] {
            let (start, end) = scroll.visible_range(offset, viewport);
            assert!(start <= end, "offset {} viewport {}", offset, viewport);
            assert!(end <= 10);
        }
    }
}

#[test]
fn window_holds_every_item_that_overlaps_the_viewport() {
    let heights = [30u64, 0, 70, 10, 90, 40, 60, 5, 5, 5];
    let scroll = model(&[30, 0, 70, 10, 90, 40, 60, 5, 5, 5]);
    for offset in 0..320u64 {
        let viewport = 45u64;
        let (start, end) = scroll.visible_range(offset, viewport);
        let mut top = 0u64;
        for (i, h) in heights.iter().enumerate() {
            let bottom = top + h;
            if top < offset + viewport && bottom > offset {
                assert!(start <= i && i < end, "item {} at offset {}", i, offset);
            }
            top = bottom;
        }
    }
}

#[test]
fn current_range_uses_what_was_last_set() {
    let mut scroll = model(&[100; 10]);
    scroll.set_scroll_offset(450);
    scroll.set_viewport_height(200);
    scroll.set_stick_to_bottom(false);
    assert_eq!(scroll.scroll_offset(), 450);
    assert_eq!(scroll.viewport_height(), 200);
    assert!(!scroll.stick_to_bottom());
    assert_eq!(scroll.current_visible_range(), (3, 8));
    assert_eq!(scroll.total_height(), 1000);
}

#[test]
fn top_of_an_item_is_the_sum_before_it() {
    let scroll = model(&[30, 0, 70, 10]);
    assert_eq!(scroll.top_of(0), 0);
    assert_eq!(scroll.top_of(1), 30);
    assert_eq!(scroll.top_of(2), 30);
    assert_eq!(scroll.top_of(3), 100);
    assert_eq!(scroll.top_of(4), 110);
    assert_eq!(scroll.top_of(5), 110);
    assert_eq!(scroll.top_of(usize::MAX), 110);
    assert_eq!(ScrollState::new(50).top_of(0), 0);
}

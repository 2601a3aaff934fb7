//! Behavior of the scroll-state tracker: clamped accumulation of wheel deltas.

use flatlist::{scroll_extent, ScrollDelta, ScrollerState};

#[test]
fn wheel_lines_then_pixels_accumulate() {
    let mut state = ScrollerState::new(500);
    assert_eq!(state.offset_pixels(), 0);
    // Three wheel lines upward at velocity 10 move the offset to 30 pixels.
    let captured = state.on_scroll_event(true, ScrollDelta::Lines { y: -3 }, 10);
    assert!(captured);
    assert_eq!(state.offset_pixels(), 30);
    // A further 100 pixel delta lands at 130.
    let captured = state.on_scroll_event(true, ScrollDelta::Pixels { y: -100 }, 10);
    assert!(captured);
    assert_eq!(state.offset_pixels(), 130);
}

#[test]
fn clamp_at_zero_never_undershoots() {
    let mut state = ScrollerState::new(500);
    state.scroll(-100);
    assert_eq!(state.offset_pixels(), 100);
    // Driving far past the top stops exactly at 0.
    state.scroll(100000);
    assert_eq!(state.offset_pixels(), 0);
}

#[test]
fn clamp_at_extent_never_overshoots() {
    let mut state = ScrollerState::new(500);
    // Driving far past the bottom stops exactly at the extent.
    state.scroll(-100000);
    assert_eq!(state.offset_pixels(), 500);
    assert_eq!(state.extent(), 500);
}

#[test]
fn zero_extent_pins_the_offset() {
    let mut state = ScrollerState::new(0);
    state.scroll(-50);
    assert_eq!(state.offset_pixels(), 0);
    state.scroll(50);
    assert_eq!(state.offset_pixels(), 0);
}

#[test]
fn wheel_event_outside_the_widget_is_ignored() {
    let mut state = ScrollerState::new(500);
    state.scroll(-100);
    let captured = state.on_scroll_event(false, ScrollDelta::Lines { y: -3 }, 10);
    assert!(!captured);
    assert_eq!(state.offset_pixels(), 100);
}

#[test]
fn huge_line_delta_is_clamped_not_wrapped() {
    let mut state = ScrollerState::new(700);
    // i64::MIN lines at a large velocity: the product is far outside the
    // extent in either direction, yet the offset lands exactly on a bound.
    state.on_scroll_event(true, ScrollDelta::Lines { y: i64::MIN }, i64::MAX);
    assert_eq!(state.offset_pixels(), 700);
    state.on_scroll_event(true, ScrollDelta::Lines { y: i64::MAX }, i64::MAX);
    assert_eq!(state.offset_pixels(), 0);
}

#[test]
fn extent_is_content_beyond_viewport() {
    assert_eq!(scroll_extent(4000, 400), 3600);
    assert_eq!(scroll_extent(400, 400), 0);
    // A viewport taller than the content leaves nothing to scroll.
    assert_eq!(scroll_extent(300, 400), 0);
}

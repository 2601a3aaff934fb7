//! Behavior of the virtual scroller: scroll notifications and the window of
//! items it selects for a viewport.

use flatlist::{Message, User, VirtualScroller};

#[test]
fn new_scroller_rests_at_the_top() {
    let items: Vec<u32> = (0..50).collect();
    let scroller = VirtualScroller::new(items, 40);
    assert_eq!(scroller.visible_bounds(400), (0, 10));
    assert_eq!(scroller.visible_items(400), (0..10).collect::<Vec<u32>>());
}

#[test]
fn scroll_notification_moves_the_window() {
    let items: Vec<u32> = (0..50).collect();
    let mut scroller = VirtualScroller::new(items, 40);
    scroller.update(Message::SetScrollOffset { num: 1, den: 2 });
    // floor(50 * 1/2) = 25, ten rows fit.
    assert_eq!(scroller.visible_bounds(400), (25, 35));
    assert_eq!(scroller.visible_items(400), (25..35).collect::<Vec<u32>>());
}

#[test]
fn scroll_to_the_bottom_shows_the_last_page() {
    let items: Vec<u32> = (0..50).collect();
    let mut scroller = VirtualScroller::new(items, 40);
    scroller.update(Message::SetScrollOffset { num: 1, den: 1 });
    assert_eq!(scroller.visible_bounds(400), (40, 50));
}

#[test]
fn total_height_sizes_the_virtual_content() {
    let items: Vec<u32> = (0..50).collect();
    let scroller = VirtualScroller::new(items, 40);
    assert_eq!(scroller.total_height(), 2000);
}

#[test]
fn empty_scroller_shows_nothing() {
    let scroller = VirtualScroller::new(Vec::<u32>::new(), 40);
    assert_eq!(scroller.visible_bounds(400), (0, 0));
    assert!(scroller.visible_items(400).is_empty());
}

#[test]
fn user_row_records_its_fields() {
    let user = User::new(7, 1234, String::from("Ada"), true);
    assert_eq!(user.n, 7);
    assert_eq!(user.order_id, 1234);
    assert_eq!(user.customer, "Ada");
    assert!(user.paid);
}

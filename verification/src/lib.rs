//! Windowing arithmetic for virtualized ("flat") lists.
//!
//! A virtualized list renders only the items that intersect the viewport,
//! while the scrollbar behaves as if every item existed.  This crate holds
//! the framework-independent core of such a widget: the windowing function
//! that maps a scroll position to the half-open index range of visible
//! items, and the scroll-state tracker that accumulates wheel deltas into a
//! clamped pixel offset.  All pixel quantities are integers and a scroll
//! position is an exact fraction `num / den`, so every computation is exact
//! and every boundary case (empty list, oversized viewport, out-of-range
//! fraction) is handled by clamping rather than failure.

pub mod flatlist;
pub mod offsetter;
pub mod user;
pub mod virtual_scroller;

pub use flatlist::{_filter_wrapper, get_start_end_pos, get_subset_by_slider_position};
pub use offsetter::{scroll_extent, ScrollDelta, ScrollerState};
pub use user::User;
pub use virtual_scroller::{create_visible_items, Message, VirtualScroller};

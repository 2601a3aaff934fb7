//! The scroll-state tracker: accumulates wheel deltas into a pixel offset
//! that is clamped into `[0, extent]`, where the extent is the total
//! scrollable distance.  The offset feeds the windowing function in
//! [`crate::flatlist`]; the tracker itself never triggers a redraw.

use vstd::prelude::*;

verus! {

/// The clamp ceiling for a scroll offset: how far the virtual content
/// reaches beyond the viewport, `max(total_content_height - viewport_height, 0)`.
pub open spec fn spec_scroll_extent(total_content_height: int, viewport_height: int) -> int {
    if total_content_height - viewport_height > 0 {
        total_content_height - viewport_height
    } else {
        0
    }
}

/// Computes the largest scroll offset that still shows content: the virtual
/// content height that lies beyond the viewport.  A viewport taller than the
/// content leaves nothing to scroll.
pub fn scroll_extent(total_content_height: usize, viewport_height: usize) -> (e: usize)
    ensures
        e == spec_scroll_extent(total_content_height as int, viewport_height as int),
{
    if total_content_height > viewport_height {
        total_content_height - viewport_height
    } else {
        0
    }
}

/// A signed vertical scroll delta, as the host toolkit reports it: either in
/// wheel line units, to be scaled by a velocity factor, or directly in
/// pixels.
#[derive(Clone, Copy, Debug)]
pub enum ScrollDelta {
    Lines { y: i64 },
    Pixels { y: i64 },
}

/// The pixel distance a wheel delta stands for once line units are scaled by
/// the configured velocity factor `scroll_by`.
pub open spec fn spec_delta_pixels(delta: ScrollDelta, scroll_by: int) -> int {
    match delta {
        ScrollDelta::Lines { y } => y * scroll_by,
        ScrollDelta::Pixels { y } => y as int,
    }
}

/// `offset - delta` clamped into `[0, extent]`: the offset after a scroll
/// event, never overshooting either end.
pub open spec fn spec_clamped_offset(offset: int, delta: int, extent: int) -> int {
    let moved = offset - delta;
    if moved < 0 {
        0
    } else if moved > extent {
        extent
    } else {
        moved
    }
}

/// The accumulated scroll position of one widget instance: the current pixel
/// offset and the maximum scrollable extent it is clamped against.  The
/// offset starts at the top and is mutated only by scroll events; it always
/// stays within `[0, extent]`.
pub struct ScrollerState {
    offset_pixels: usize,
    height: usize,
}

impl ScrollerState {
    /// The current pixel offset of the content relative to the viewport top.
    pub closed spec fn spec_offset(&self) -> int {
        self.offset_pixels as int
    }

    /// The clamp ceiling the offset never exceeds.
    pub closed spec fn spec_extent(&self) -> int {
        self.height as int
    }

    /// The offset is always within the scrollable range.
    pub open spec fn wf(&self) -> bool {
        0 <= self.spec_offset() <= self.spec_extent()
    }

    /// Creates a tracker resting at the top, clamping against `height`
    /// pixels of scrollable distance.  Callers should pass the true maximum,
    /// as [`scroll_extent`] computes it.
    pub fn new(height: usize) -> (s: Self)
        ensures
            s.spec_offset() == 0,
            s.spec_extent() == height,
            s.wf(),
    {
        ScrollerState { offset_pixels: 0, height }
    }

    /// Reads the current pixel offset, for the view-building step.
    pub fn offset_pixels(&self) -> (o: usize)
        ensures
            o == self.spec_offset(),
    {
        self.offset_pixels
    }

    /// Reads the clamp ceiling the tracker was created with.
    pub fn extent(&self) -> (e: usize)
        ensures
            e == self.spec_extent(),
    {
        self.height
    }

    /// Sets the offset to `target` clamped into `[0, extent]`.
    fn clamp_to_extent(&mut self, target: i128)
        ensures
            final(self).spec_extent() == old(self).spec_extent(),
            final(self).spec_offset() == spec_clamped_offset(
                target as int,
                0,
                old(self).spec_extent(),
            ),
            final(self).wf(),
    {
        if target < 0 {
            self.offset_pixels = 0;
        } else if target > self.height as i128 {
            self.offset_pixels = self.height;
        } else {
            self.offset_pixels = target as usize;
        }
    }

    /// Applies a signed pixel delta `delta_y` to the offset: the new offset
    /// is `offset - delta_y` clamped into `[0, extent]`, so a delta driving
    /// past either end stops exactly at `0` or at the extent.
    pub fn scroll(&mut self, delta_y: i64)
        ensures
            final(self).spec_extent() == old(self).spec_extent(),
            final(self).spec_offset() == spec_clamped_offset(
                old(self).spec_offset(),
                delta_y as int,
                old(self).spec_extent(),
            ),
            final(self).wf(),
    {
        let target: i128 = self.offset_pixels as i128 - delta_y as i128;
        self.clamp_to_extent(target);
    }

    /// The wheel handling lifted out of the widget's event dispatch: a wheel
    /// event moves the offset only while the cursor is over the widget, and
    /// is then consumed (`captured`).  Line deltas are scaled by the
    /// velocity factor `scroll_by` before they are applied; pixel deltas are
    /// applied directly.
    pub fn on_scroll_event(&mut self, is_mouse_over: bool, delta: ScrollDelta, scroll_by: i64) -> (captured:
        bool)
        ensures
            captured == is_mouse_over,
            final(self).spec_extent() == old(self).spec_extent(),
            is_mouse_over ==> final(self).spec_offset() == spec_clamped_offset(
                old(self).spec_offset(),
                spec_delta_pixels(delta, scroll_by as int),
                old(self).spec_extent(),
            ),
            !is_mouse_over ==> *final(self) == *old(self),
            old(self).wf() ==> final(self).wf(),
    {
        if is_mouse_over {
            match delta {
                ScrollDelta::Lines { y } => {
                    proof {
                        let yy = y as int;
                        let ss = scroll_by as int;
                        assert(-0x40000000000000000000000000000000 <= yy * ss
                            <= 0x40000000000000000000000000000000) by (nonlinear_arith)
                            requires
                                -0x8000000000000000 <= yy <= 0x7fffffffffffffff,
                                -0x8000000000000000 <= ss <= 0x7fffffffffffffff,
                        ;
                    }
                    let d: i128 = y as i128 * scroll_by as i128;
                    let target: i128 = self.offset_pixels as i128 - d;
                    self.clamp_to_extent(target);
                },
                ScrollDelta::Pixels { y } => {
                    self.scroll(y);
                },
            }
            true
        } else {
            false
        }
    }
}

} // verus!

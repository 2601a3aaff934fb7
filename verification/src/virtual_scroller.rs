//! A virtual scroller: owns the full item list and the current scroll
//! fraction, and answers, for a given viewport height, which contiguous
//! window of items must be materialized and how tall the full virtual
//! content is.  Building the host toolkit's widget tree out of that window
//! is the embedding application's job.

use vstd::prelude::*;

verus! {

use crate::flatlist::{get_start_end_pos, spec_end, spec_start};

/// A scroll notification from the host: the new scroll position as the
/// exact fraction `num / den` of the total scrollable distance.
#[derive(Clone, Copy, Debug)]
pub enum Message {
    SetScrollOffset { num: usize, den: usize },
}

/// A fraction carried by a [`Message`] must have a positive denominator.
pub open spec fn message_wf(m: Message) -> bool {
    match m {
        Message::SetScrollOffset { num: _, den } => den > 0,
    }
}

/// The full item list of a virtualized view, with the uniform row height and
/// the current scroll fraction `p_scroll_num / p_scroll_den`.
pub struct VirtualScroller<T> {
    items: Vec<T>,
    p_scroll_num: usize,
    p_scroll_den: usize,
    item_height: usize,
}

impl<T> VirtualScroller<T> {
    /// The owned items, in order.
    pub closed spec fn spec_items(&self) -> Seq<T> {
        self.items@
    }

    /// Numerator of the current scroll fraction.
    pub closed spec fn spec_scroll_num(&self) -> int {
        self.p_scroll_num as int
    }

    /// Denominator of the current scroll fraction.
    pub closed spec fn spec_scroll_den(&self) -> int {
        self.p_scroll_den as int
    }

    /// The uniform pixel height of one row.
    pub closed spec fn spec_item_height(&self) -> int {
        self.item_height as int
    }

    /// Row height and fraction denominator are positive, so the windowing
    /// arithmetic is defined.
    pub open spec fn wf(&self) -> bool {
        self.spec_item_height() > 0 && self.spec_scroll_den() > 0
    }

    /// First index of the window for a viewport of height `view_h`.
    pub open spec fn spec_visible_start(&self, view_h: int) -> int {
        spec_start(
            self.spec_items().len() as int,
            self.spec_scroll_num(),
            self.spec_scroll_den(),
            self.spec_item_height(),
            view_h,
        )
    }

    /// One past the last index of the window for a viewport of height `view_h`.
    pub open spec fn spec_visible_end(&self, view_h: int) -> int {
        spec_end(
            self.spec_items().len() as int,
            self.spec_scroll_num(),
            self.spec_scroll_den(),
            self.spec_item_height(),
            view_h,
        )
    }

    /// Creates a scroller over `items` with rows `item_height` pixels tall,
    /// resting at the top.
    pub fn new(items: Vec<T>, item_height: usize) -> (s: Self)
        requires
            item_height > 0,
        ensures
            s.wf(),
            s.spec_items() == items@,
            s.spec_scroll_num() == 0,
            s.spec_scroll_den() == 1,
            s.spec_item_height() == item_height as int,
    {
        VirtualScroller { items, p_scroll_num: 0, p_scroll_den: 1, item_height }
    }

    /// Records a scroll notification: the stored fraction becomes the one
    /// the message carries; the items and the row height are untouched.
    pub fn update(&mut self, message: Message)
        requires
            old(self).wf(),
            message_wf(message),
        ensures
            final(self).wf(),
            final(self).spec_items() == old(self).spec_items(),
            final(self).spec_item_height() == old(self).spec_item_height(),
            (match message {
                Message::SetScrollOffset { num, den } => final(self).spec_scroll_num()
                    == num as int && final(self).spec_scroll_den() == den as int,
            }),
    {
        match message {
            Message::SetScrollOffset { num, den } => {
                self.p_scroll_num = num;
                self.p_scroll_den = den;
            },
        }
    }

    /// The pixel height of the full virtual content: every row at its
    /// uniform height.  The product must fit the machine word, which any
    /// renderable list satisfies.
    pub fn total_height(&self) -> (h: usize)
        requires
            self.spec_items().len() * self.spec_item_height() <= usize::MAX,
        ensures
            h == self.spec_items().len() * self.spec_item_height(),
    {
        self.items.len() * self.item_height
    }

    /// The half-open index range of items a viewport of height `view_h`
    /// must materialize at the current scroll fraction.
    pub fn visible_bounds(&self, view_h: usize) -> (r: (usize, usize))
        requires
            self.wf(),
        ensures
            r.0 == self.spec_visible_start(view_h as int),
            r.1 == self.spec_visible_end(view_h as int),
            0 <= r.0 <= r.1 <= self.spec_items().len(),
    {
        get_start_end_pos(
            self.items.len(),
            self.p_scroll_num,
            self.p_scroll_den,
            self.item_height,
            view_h,
        )
    }
}

impl<T: Copy> VirtualScroller<T> {
    /// Copies the window of items a viewport of height `view_h` must show:
    /// exactly the sub-sequence at [`Self::visible_bounds`].
    pub fn visible_items(&self, view_h: usize) -> (r: Vec<T>)
        requires
            self.wf(),
        ensures
            r@ == self.spec_items().subrange(
                self.spec_visible_start(view_h as int),
                self.spec_visible_end(view_h as int),
            ),
    {
        let (start, end) = self.visible_bounds(view_h);
        create_visible_items(&self.items, start, end)
    }
}

/// Copies the items at the half-open index range `[start_index, end_index)`
/// out of the full list: the ordered sub-sequence that a render pass wraps
/// into the visible fragment.
pub fn create_visible_items<T: Copy>(items: &Vec<T>, start_index: usize, end_index: usize) -> (r:
    Vec<T>)
    requires
        start_index <= end_index <= items@.len(),
    ensures
        r@ == items@.subrange(start_index as int, end_index as int),
{
    let mut r: Vec<T> = Vec::new();
    let mut i: usize = start_index;
    while i < end_index
        invariant
            start_index <= i <= end_index <= items@.len(),
            r@ == items@.subrange(start_index as int, i as int),
        decreases end_index - i,
    {
        r.push(items[i]);
        proof {
            assert(r@ =~= items@.subrange(start_index as int, i + 1));
        }
        i = i + 1;
    }
    r
}

} // verus!

//! Vertical scroll position of the log view, with its follow-tail mode.

use vstd::prelude::*;

verus! {

/// The offset at which the newest line is the last row of a view of
/// `view_height` rows onto `content_height` rows.
pub open spec fn bottom_offset(content_height: u16, view_height: u16) -> u16 {
    if content_height > view_height {
        (content_height - view_height) as u16
    } else {
        0
    }
}

/// Whether a view at `offset` reaches the end of the content or beyond it.
pub open spec fn reaches_bottom(offset: u16, content_height: u16, view_height: u16) -> bool {
    offset + view_height >= content_height
}

/// A vertical offset into the history and whether the view follows its tail.
#[derive(Debug, Clone, Copy, PartialEq, Eq, Structural)]
pub struct ScrollPosition {
    /// Rows hidden above the view.
    pub offset: u16,
    /// When set, every frame shows the newest lines.
    pub follow_tail: bool,
}

/// The position after one step up: one row up, and no longer following.
pub open spec fn scrolled_up(s: ScrollPosition) -> ScrollPosition {
    ScrollPosition {
        offset: if s.offset > 0 { (s.offset - 1) as u16 } else { 0 },
        follow_tail: false,
    }
}

/// The position after one step down: one row down, follow mode unchanged.
pub open spec fn scrolled_down(s: ScrollPosition) -> ScrollPosition {
    ScrollPosition {
        offset: if s.offset < u16::MAX { (s.offset + 1) as u16 } else { u16::MAX },
        follow_tail: s.follow_tail,
    }
}

/// The position after an explicit request to follow the tail.
pub open spec fn followed(s: ScrollPosition) -> ScrollPosition {
    ScrollPosition { offset: s.offset, follow_tail: true }
}

/// The position a frame settles on: following is forced once the view reaches
/// the bottom, and a following view is placed on the newest lines.
pub open spec fn framed(s: ScrollPosition, content_height: u16, view_height: u16) -> ScrollPosition {
    let follow = s.follow_tail || reaches_bottom(s.offset, content_height, view_height);
    ScrollPosition {
        offset: if follow { bottom_offset(content_height, view_height) } else { s.offset },
        follow_tail: follow,
    }
}

impl ScrollPosition {
    /// At the top, following the tail.
    pub fn new() -> (r: Self)
        ensures
            r == (ScrollPosition { offset: 0, follow_tail: true }),
    {
        ScrollPosition { offset: 0, follow_tail: true }
    }

    /// Moves one row up and stops following the tail.
    pub fn scroll_up(&mut self)
        ensures
            *final(self) == scrolled_up(*old(self)),
    {
        self.offset = self.offset.saturating_sub(1);
        self.follow_tail = false;
    }

    /// Moves one row down.
    pub fn scroll_down(&mut self)
        ensures
            *final(self) == scrolled_down(*old(self)),
    {
        self.offset = self.offset.saturating_add(1);
    }

    /// Follows the tail again.
    pub fn follow(&mut self)
        ensures
            *final(self) == followed(*old(self)),
    {
        self.follow_tail = true;
    }

    /// Settles the position for a frame of `view_height` rows onto
    /// `content_height` rows and returns the offset to draw at.
    pub fn frame(&mut self, content_height: u16, view_height: u16) -> (r: u16)
        ensures
            *final(self) == framed(*old(self), content_height, view_height),
            r == final(self).offset,
    {
        if self.offset as u32 + view_height as u32 >= content_height as u32 {
            self.follow_tail = true;
        }
        if self.follow_tail {
            self.offset = content_height.saturating_sub(view_height);
        }
        self.offset
    }
}

/// Once the view follows the tail, every frame, whatever the content has grown
/// to, shows the newest lines, and keeps following.
pub proof fn lemma_follow_anchors(s: ScrollPosition, content_height: u16, view_height: u16)
    requires
        s.follow_tail,
    ensures
        framed(s, content_height, view_height).offset == bottom_offset(content_height, view_height),
        framed(s, content_height, view_height).follow_tail,
{
}

} // verus!

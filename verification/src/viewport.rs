//! The viewport over the scrollback: which line is at the top of the window,
//! and whether the window follows new output or stays where the user put it.

use vstd::prelude::*;

verus! {

/// The offset at which the last `max_visible` of `total` lines are in the
/// window: the computed bottom.
pub open spec fn bottom(total: nat, max_visible: nat) -> nat {
    if total > max_visible {
        (total - max_visible) as nat
    } else {
        0
    }
}

/// How many lines there are to show: the stored ones, and one more for a
/// line that is being typed.
pub open spec fn line_count(stored: nat, live: bool) -> nat {
    if live {
        stored + 1
    } else {
        stored
    }
}

/// The viewport as a mathematical value.
pub struct ViewportView {
    /// The index of the first line in the window.
    pub scroll_offset: nat,
    /// How many lines the window shows.
    pub max_visible: nat,
    /// Whether the user has scrolled away and the window stays put.
    pub manual_scroll: bool,
}

impl ViewportView {
    /// The computed bottom for `total` lines.
    pub open spec fn bottom(self, total: nat) -> nat {
        bottom(total, self.max_visible)
    }

    /// The offset lies between the top and the computed bottom.
    pub open spec fn within(self, total: nat) -> bool {
        self.scroll_offset <= self.bottom(total)
    }

    /// The offset is within range, and a window that follows the output is
    /// at the computed bottom.
    pub open spec fn settled(self, total: nat) -> bool {
        &&& self.within(total)
        &&& !self.manual_scroll ==> self.scroll_offset == self.bottom(total)
    }

    /// The viewport after the number of lines became `total`: a window that
    /// follows goes to the computed bottom, one that was scrolled stays.
    pub open spec fn follow(self, total: nat) -> ViewportView {
        if self.manual_scroll {
            self
        } else {
            ViewportView {
                scroll_offset: self.bottom(total),
                max_visible: self.max_visible,
                manual_scroll: false,
            }
        }
    }

    /// The viewport after scrolling `n` lines towards the top: it stops at the
    /// top, and the window no longer follows.
    pub open spec fn scroll_up(self, n: nat) -> ViewportView {
        ViewportView {
            scroll_offset: if n >= self.scroll_offset {
                0
            } else {
                (self.scroll_offset - n) as nat
            },
            max_visible: self.max_visible,
            manual_scroll: true,
        }
    }

    /// The offset after scrolling `n` lines towards the end of `total` lines:
    /// it stops at the computed bottom.
    pub open spec fn offset_after_scroll_down(self, n: nat, total: nat) -> nat {
        if self.scroll_offset + n >= self.bottom(total) {
            self.bottom(total)
        } else {
            self.scroll_offset + n
        }
    }

    /// The viewport after scrolling `n` lines towards the end of `total`
    /// lines: the window follows again once it is at the computed bottom, and
    /// not before.
    pub open spec fn scroll_down(self, n: nat, total: nat) -> ViewportView {
        let offset = self.offset_after_scroll_down(n, total);
        ViewportView {
            scroll_offset: offset,
            max_visible: self.max_visible,
            manual_scroll: self.manual_scroll && offset < self.bottom(total),
        }
    }
}

/// The scroll state of the output window.
pub struct Viewport {
    scroll_offset: usize,
    max_display_lines: usize,
    is_manually_scrolled: bool,
}

impl View for Viewport {
    type V = ViewportView;

    closed spec fn view(&self) -> ViewportView {
        ViewportView {
            scroll_offset: self.scroll_offset as nat,
            max_visible: self.max_display_lines as nat,
            manual_scroll: self.is_manually_scrolled,
        }
    }
}

impl Viewport {
    /// The window shows at least one line.
    pub open spec fn wf(&self) -> bool {
        self@.max_visible >= 1
    }

    /// A viewport at the top of an empty scrollback that follows the output.
    pub fn new(max_display_lines: usize) -> (viewport: Viewport)
        requires
            max_display_lines >= 1,
        ensures
            viewport.wf(),
            viewport@ == (ViewportView {
                scroll_offset: 0,
                max_visible: max_display_lines as nat,
                manual_scroll: false,
            }),
    {
        Viewport { scroll_offset: 0, max_display_lines, is_manually_scrolled: false }
    }

    /// The index of the first line in the window.
    pub fn scroll_offset(&self) -> (offset: usize)
        ensures
            offset == self@.scroll_offset,
    {
        self.scroll_offset
    }

    /// How many lines the window shows.
    pub fn max_display_lines(&self) -> (lines: usize)
        ensures
            lines == self@.max_visible,
    {
        self.max_display_lines
    }

    /// Whether the user has scrolled away, so that the window stays put.
    pub fn is_manually_scrolled(&self) -> (manual: bool)
        ensures
            manual == self@.manual_scroll,
    {
        self.is_manually_scrolled
    }

    /// The computed bottom for `stored` lines and, if `live`, the line being
    /// typed.
    pub fn bottom_for(&self, stored: usize, live: bool) -> (offset: usize)
        requires
            self.wf(),
        ensures
            offset == self@.bottom(line_count(stored as nat, live)),
    {
        if stored >= self.max_display_lines {
            if live {
                stored - self.max_display_lines + 1
            } else {
                stored - self.max_display_lines
            }
        } else {
            0
        }
    }

    /// Whether the window is at the computed bottom, or beyond it.
    pub fn is_at_bottom(&self, stored: usize, live: bool) -> (at_bottom: bool)
        requires
            self.wf(),
        ensures
            at_bottom == (self@.scroll_offset >= self@.bottom(line_count(stored as nat, live))),
    {
        self.scroll_offset >= self.bottom_for(stored, live)
    }

    /// Takes note that there are now `stored` lines and, if `live`, the line
    /// being typed: a window that follows the output goes to the computed
    /// bottom, one that the user scrolled stays where it is.
    pub fn follow(&mut self, stored: usize, live: bool)
        requires
            old(self).wf(),
        ensures
            final(self).wf(),
            final(self)@ == old(self)@.follow(line_count(stored as nat, live)),
    {
        if !self.is_manually_scrolled {
            self.scroll_offset = self.bottom_for(stored, live);
        }
    }

    /// Scrolls `n` lines towards the top and stops there. The window no
    /// longer follows the output.
    pub fn scroll_up(&mut self, n: usize)
        requires
            old(self).wf(),
        ensures
            final(self).wf(),
            final(self)@ == old(self)@.scroll_up(n as nat),
    {
        if n >= self.scroll_offset {
            self.scroll_offset = 0;
        } else {
            self.scroll_offset = self.scroll_offset - n;
        }
        self.is_manually_scrolled = true;
    }

    /// Scrolls `n` lines towards the end and stops at the computed bottom.
    /// Once there, the window follows the output again.
    pub fn scroll_down(&mut self, n: usize, stored: usize, live: bool)
        requires
            old(self).wf(),
        ensures
            final(self).wf(),
            final(self)@ == old(self)@.scroll_down(n as nat, line_count(stored as nat, live)),
    {
        let max_scroll: usize = self.bottom_for(stored, live);
        if self.scroll_offset >= max_scroll || n >= max_scroll - self.scroll_offset {
            self.scroll_offset = max_scroll;
            self.is_manually_scrolled = false;
        } else {
            self.scroll_offset = self.scroll_offset + n;
        }
    }
}

/// The offset never leaves the range from the top to the computed bottom:
/// not when lines are added, not when the user scrolls either way.
pub proof fn lemma_offset_stays_within(v: ViewportView, total: nat, later: nat, n: nat)
    requires
        v.within(total),
        total <= later,
    ensures
        v.follow(later).within(later),
        v.scroll_up(n).within(total),
        v.scroll_down(n, total).within(total),
{
}

/// A settled viewport stays settled when lines are added and when the user
/// scrolls either way.
pub proof fn lemma_settled_is_kept(v: ViewportView, total: nat, later: nat, n: nat)
    requires
        v.settled(total),
        total <= later,
    ensures
        v.follow(later).settled(later),
        v.scroll_up(n).settled(total),
        v.scroll_down(n, total).settled(total),
{
}

/// Scrolling back is sticky. After the user scrolls up, new lines leave the
/// viewport as it is, whatever their number. New lines never end manual
/// scrolling, and scrolling down ends it exactly when the window arrives at
/// the computed bottom.
pub proof fn lemma_scroll_back_is_sticky(v: ViewportView, n: nat, total: nat)
    ensures
        v.scroll_up(n).manual_scroll,
        v.scroll_up(n).follow(total) == v.scroll_up(n),
        v.manual_scroll ==> v.follow(total) == v,
        v.manual_scroll ==> (v.scroll_down(n, total).manual_scroll <==> v.scroll_down(
            n,
            total,
        ).scroll_offset < v.bottom(total)),
        !v.manual_scroll ==> !v.scroll_down(n, total).manual_scroll,
{
}

/// Scrolling by `n + 1` lines is scrolling by `n` lines and then by one more,
/// in either direction.
pub proof fn lemma_scroll_by_steps(v: ViewportView, n: nat, total: nat)
    ensures
        v.scroll_up(n + 1) == v.scroll_up(n).scroll_up(1),
        v.scroll_down(n + 1, total) == v.scroll_down(n, total).scroll_down(1, total),
{
}

} // verus!

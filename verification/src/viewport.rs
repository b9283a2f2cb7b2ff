//! Fixed-size sliding-window pagination over an ordered sequence.
//!
//! A [`Viewport`] keeps a half-open index range `[start, end)` over a sequence
//! of length `n`, describing which elements are currently visible, and keeps
//! that range consistent as the sequence length, the visible capacity, or the
//! selected index change.  Two resize styles exist: page-aligned paging (the
//! commit list) and a window centered on the selection (the branch list).  A
//! third, selection-less style is driven by explicit line scrolls (the
//! commit-detail text).

use vstd::prelude::*;

verus! {

/// The visible index window `[start, end)` of a larger ordered sequence,
/// together with how many elements fit on screen.
#[derive(Clone, Copy, Debug, PartialEq, Eq, Structural)]
pub struct Viewport {
    pub start: usize,
    pub end: usize,
    pub capacity: usize,
}

/// The viewport a page-aligned resize derives: `start` is the greatest
/// multiple of `capacity` not above `selection`, and the window covers at
/// most `capacity` elements of a sequence of length `n`.  A zero capacity
/// yields the empty window at the origin.
pub open spec fn paged_viewport(selection: usize, n: usize, capacity: usize) -> Viewport {
    if capacity == 0 {
        Viewport { start: 0, end: 0, capacity: 0 }
    } else {
        let start = selection - ((selection as int) % (capacity as int));
        let end = if start + capacity < n {
            start + capacity
        } else {
            n as int
        };
        Viewport { start: start as usize, end: end as usize, capacity }
    }
}

/// The viewport a centered resize derives: `start` sits half a capacity above
/// the selection, floored at 0, and the window covers at most `capacity`
/// elements of a sequence of length `n`.
pub open spec fn centered_viewport(selection: usize, n: usize, capacity: usize) -> Viewport {
    let start = if selection >= capacity / 2 {
        selection - capacity / 2
    } else {
        0int
    };
    let end = if start + capacity < n {
        start + capacity
    } else {
        n as int
    };
    Viewport { start: start as usize, end: end as usize, capacity }
}

/// The window shifted one element towards the front of the sequence; a no-op
/// when it already touches the front.
pub open spec fn stepped_up(v: Viewport) -> Viewport {
    if v.start > 0 {
        Viewport { start: (v.start - 1) as usize, end: (v.end - 1) as usize, capacity: v.capacity }
    } else {
        v
    }
}

/// The window shifted one element towards the back of a sequence of length
/// `n`; a no-op when it already touches the back.
pub open spec fn stepped_down(v: Viewport, n: usize) -> Viewport {
    if v.end < n {
        Viewport { start: (v.start + 1) as usize, end: (v.end + 1) as usize, capacity: v.capacity }
    } else {
        v
    }
}

/// The window scrolled `lines` elements towards the front, preserving the
/// window size while respecting the lower bound 0; a no-op when it already
/// touches the front.
pub open spec fn scrolled_up(v: Viewport, lines: usize, n: usize) -> Viewport {
    if v.start == 0 {
        v
    } else {
        let size = v.end - v.start;
        let new_start = if v.start >= lines {
            v.start - lines
        } else {
            0int
        };
        let new_end = if new_start + size < n {
            new_start + size
        } else {
            n as int
        };
        Viewport { start: new_start as usize, end: new_end as usize, capacity: v.capacity }
    }
}

/// The window scrolled `lines` elements towards the back, clamped so it never
/// extends past `n`; shrinking at the trailing edge pulls the leading edge
/// forward by the same amount to preserve the window size.  A no-op when it
/// already touches the back.
pub open spec fn scrolled_down(v: Viewport, lines: usize, n: usize) -> Viewport {
    if v.end >= n {
        v
    } else {
        let size = v.end - v.start;
        let new_end = if v.end + lines < n {
            v.end + lines
        } else {
            n as int
        };
        let new_start = if new_end >= size {
            new_end - size
        } else {
            0int
        };
        Viewport { start: new_start as usize, end: new_end as usize, capacity: v.capacity }
    }
}

/// The window with `start` kept and `end` re-derived so it holds at most
/// `capacity` elements of a sequence of length `n`, with the new capacity
/// recorded.  This is the resize rule of the selection-less style.
pub open spec fn clipped(v: Viewport, capacity: usize, n: usize) -> Viewport {
    let end = if v.start + capacity < n {
        v.start + capacity
    } else {
        n as int
    };
    Viewport { start: v.start, end: end as usize, capacity }
}

impl Viewport {
    /// The window is well formed over a sequence of length `n`:
    /// `0 <= start <= end <= n`, and it holds at most `capacity` elements.
    pub open spec fn wf(self, n: nat) -> bool {
        &&& self.start <= self.end
        &&& self.end <= n
        &&& self.end - self.start <= self.capacity
    }

    /// An empty window at the origin with the given capacity.
    pub fn new(capacity: usize) -> (v: Viewport)
        ensures
            v == (Viewport { start: 0, end: 0, capacity }),
    {
        Viewport { start: 0, end: 0, capacity }
    }

    /// Re-derive the window around `selection` by page-aligned paging and
    /// record the new capacity.
    pub fn resize_paged(&mut self, selection: usize, n: usize, capacity: usize)
        requires
            selection <= n,
        ensures
            *final(self) == paged_viewport(selection, n, capacity),
            final(self).wf(n as nat),
    {
        if capacity == 0 {
            self.start = 0;
            self.end = 0;
            self.capacity = 0;
        } else {
            proof {
                vstd::arithmetic::div_mod::lemma_mod_decreases(
                    selection as nat,
                    capacity as nat,
                );
            }
            let offset = selection % capacity;
            let start = selection - offset;
            let end = if n - start < capacity {
                n
            } else {
                start + capacity
            };
            self.start = start;
            self.end = end;
            self.capacity = capacity;
        }
    }

    /// Re-derive the window as one centered on `selection` and record the new
    /// capacity.
    pub fn resize_centered(&mut self, selection: usize, n: usize, capacity: usize)
        requires
            selection <= n,
        ensures
            *final(self) == centered_viewport(selection, n, capacity),
            final(self).wf(n as nat),
    {
        let half = capacity / 2;
        let start = if selection >= half {
            selection - half
        } else {
            0
        };
        let end = if n - start < capacity {
            n
        } else {
            start + capacity
        };
        self.start = start;
        self.end = end;
        self.capacity = capacity;
    }

    /// Shift the window one element towards the front of the sequence.
    pub fn step_up(&mut self, n: usize)
        requires
            old(self).wf(n as nat),
        ensures
            *final(self) == stepped_up(*old(self)),
            final(self).wf(n as nat),
    {
        if self.start > 0 {
            self.start = self.start - 1;
            self.end = self.end - 1;
        }
    }

    /// Shift the window one element towards the back of the sequence.
    pub fn step_down(&mut self, n: usize)
        requires
            old(self).wf(n as nat),
        ensures
            *final(self) == stepped_down(*old(self), n),
            final(self).wf(n as nat),
    {
        if self.end < n {
            self.start = self.start + 1;
            self.end = self.end + 1;
        }
    }

    /// Scroll the window `lines` elements towards the front, preserving the
    /// window size.
    pub fn scroll_lines_up(&mut self, lines: usize, n: usize)
        requires
            old(self).wf(n as nat),
        ensures
            *final(self) == scrolled_up(*old(self), lines, n),
            final(self).wf(n as nat),
    {
        if self.start > 0 {
            let size = self.end - self.start;
            let new_start = if self.start >= lines {
                self.start - lines
            } else {
                0
            };
            let new_end = if n - new_start < size {
                n
            } else {
                new_start + size
            };
            self.start = new_start;
            self.end = new_end;
        }
    }

    /// Scroll the window `lines` elements towards the back, preserving the
    /// window size while never extending past `n`.
    pub fn scroll_lines_down(&mut self, lines: usize, n: usize)
        requires
            old(self).wf(n as nat),
        ensures
            *final(self) == scrolled_down(*old(self), lines, n),
            final(self).wf(n as nat),
    {
        if self.end < n {
            let size = self.end - self.start;
            let new_end = if n - self.end < lines {
                n
            } else {
                self.end + lines
            };
            let new_start = if new_end >= size {
                new_end - size
            } else {
                0
            };
            self.start = new_start;
            self.end = new_end;
        }
    }

    /// Keep `start` and re-derive `end` for a new capacity.
    pub fn clip(&mut self, capacity: usize, n: usize)
        requires
            old(self).start <= n,
        ensures
            *final(self) == clipped(*old(self), capacity, n),
            final(self).wf(n as nat),
    {
        let end = if n - self.start < capacity {
            n
        } else {
            self.start + capacity
        };
        self.end = end;
        self.capacity = capacity;
    }
}

/// Law: a page-aligned resize is idempotent.  The window it derives depends
/// only on the selection, the sequence length and the capacity — never on the
/// window it replaces — so any two viewports satisfying the resize
/// postcondition for the same arguments are equal, and in particular a second
/// resize with the same capacity and no state change in between yields the
/// same window.
pub proof fn lemma_resize_paged_idempotent(
    v1: Viewport,
    v2: Viewport,
    selection: usize,
    n: usize,
    capacity: usize,
)
    requires
        v1 == paged_viewport(selection, n, capacity),
        v2 == paged_viewport(selection, n, capacity),
    ensures
        v1 == v2,
{
}

/// Law: a centered resize is idempotent, for the same reason as the
/// page-aligned one: the derived window is a function of the selection, the
/// sequence length and the capacity alone.
pub proof fn lemma_resize_centered_idempotent(
    v1: Viewport,
    v2: Viewport,
    selection: usize,
    n: usize,
    capacity: usize,
)
    requires
        v1 == centered_viewport(selection, n, capacity),
        v2 == centered_viewport(selection, n, capacity),
    ensures
        v1 == v2,
{
}

} // verus!

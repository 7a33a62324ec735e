//! Helix selection ranges: an anchor and a head on gaps between bytes.
use vstd::prelude::*;

use crate::enums::Direction;

verus! {

/// A selection range.
///
/// `anchor` and `head` are positions *between* bytes. The range covers
/// `[start, end)` whatever the order of anchor and head; the head is the
/// side that moves when the range is extended.
#[derive(Clone, Copy, Debug, PartialEq, Eq, Structural)]
pub struct HelixRange {
    /// The side that does not move when extending.
    pub anchor: usize,
    /// The side that moves when extending.
    pub head: usize,
}

/// The lower of the two ends.
pub open spec fn range_start(r: HelixRange) -> usize {
    if r.anchor <= r.head { r.anchor } else { r.head }
}

/// The higher of the two ends.
pub open spec fn range_end(r: HelixRange) -> usize {
    if r.anchor <= r.head { r.head } else { r.anchor }
}

/// `Forward` when `head >= anchor`, `Backward` otherwise.
pub open spec fn range_direction(r: HelixRange) -> Direction {
    if r.head < r.anchor { Direction::Backward } else { Direction::Forward }
}

/// The range with anchor and head swapped.
pub open spec fn range_flipped(r: HelixRange) -> HelixRange {
    HelixRange { anchor: r.head, head: r.anchor }
}

/// The range grown to cover `[from, to]` with its orientation kept.
pub open spec fn range_extended(r: HelixRange, from: usize, to: usize) -> HelixRange {
    if r.anchor <= r.head {
        HelixRange {
            anchor: if from < r.anchor { from } else { r.anchor },
            head: if to > r.head { to } else { r.head },
        }
    } else {
        HelixRange {
            anchor: if to > r.anchor { to } else { r.anchor },
            head: if from < r.head { from } else { r.head },
        }
    }
}

impl HelixRange {
    pub fn new(anchor: usize, head: usize) -> (r: Self)
        ensures
            r.anchor == anchor,
            r.head == head,
    {
        HelixRange { anchor, head }
    }

    /// A zero-width range at `head`.
    pub fn point(head: usize) -> (r: Self)
        ensures
            r.anchor == head,
            r.head == head,
    {
        Self::new(head, head)
    }

    /// Start of the range.
    pub fn start(&self) -> (r: usize)
        ensures
            r == range_start(*self),
    {
        if self.anchor <= self.head {
            self.anchor
        } else {
            self.head
        }
    }

    /// End of the range.
    pub fn end(&self) -> (r: usize)
        ensures
            r == range_end(*self),
    {
        if self.anchor <= self.head {
            self.head
        } else {
            self.anchor
        }
    }

    /// Total length of the range.
    pub fn len(&self) -> (r: usize)
        ensures
            r == range_end(*self) - range_start(*self),
    {
        self.end() - self.start()
    }

    /// `true` when anchor and head are at the same position.
    pub fn is_empty(&self) -> (r: bool)
        ensures
            r == (self.anchor == self.head),
    {
        self.anchor == self.head
    }

    /// `Forward` when `head >= anchor`, `Backward` otherwise.
    pub fn direction(&self) -> (r: Direction)
        ensures
            r == range_direction(*self),
    {
        if self.head < self.anchor {
            Direction::Backward
        } else {
            Direction::Forward
        }
    }

    /// Swap anchor and head.
    pub fn flip(self) -> (r: Self)
        ensures
            r == range_flipped(self),
    {
        HelixRange { anchor: self.head, head: self.anchor }
    }

    /// The range itself if it already points in `direction`, otherwise
    /// the range flipped.
    pub fn with_direction(self, direction: Direction) -> (r: Self)
        ensures
            r == (if range_direction(self) == direction {
                self
            } else {
                range_flipped(self)
            }),
    {
        if self.direction() == direction {
            self
        } else {
            self.flip()
        }
    }

    /// Grow the range to cover at least `[from, to]`, keeping its
    /// orientation: a forward range moves its anchor left and its head
    /// right, a backward one the other way round.
    pub fn extend(self, from: usize, to: usize) -> (r: Self)
        requires
            from <= to,
        ensures
            r == range_extended(self, from, to),
    {
        if self.anchor <= self.head {
            HelixRange {
                anchor: if from < self.anchor { from } else { self.anchor },
                head: if to > self.head { to } else { self.head },
            }
        } else {
            HelixRange {
                anchor: if to > self.anchor { to } else { self.anchor },
                head: if from < self.head { from } else { self.head },
            }
        }
    }

    /// `true` if `pos` lies inside the range (left-inclusive,
    /// right-exclusive).
    pub fn contains(&self, pos: usize) -> (r: bool)
        ensures
            r == (range_start(*self) <= pos && pos < range_end(*self)),
    {
        self.start() <= pos && pos < self.end()
    }
}

/// Flipping twice gives the range back, and flipping keeps the covered
/// span, so which positions a range contains does not depend on its
/// direction.
pub proof fn lemma_flip_involution(r: HelixRange)
    ensures
        range_flipped(range_flipped(r)) == r,
        range_start(range_flipped(r)) == range_start(r),
        range_end(range_flipped(r)) == range_end(r),
{
}

/// A range is empty exactly when its length is zero, and an empty range
/// points forward.
pub proof fn lemma_empty_iff_zero_len(r: HelixRange)
    ensures
        (r.anchor == r.head) <==> (range_end(r) - range_start(r) == 0),
        r.anchor == r.head ==> range_direction(r) == Direction::Forward,
        range_start(r) <= range_end(r),
{
}

/// Asking a non-empty range for a direction yields a range pointing that
/// way over the same span; an empty range stays the same point.
pub proof fn lemma_with_direction(r: HelixRange, d: Direction)
    ensures
        ({
            let w = if range_direction(r) == d { r } else { range_flipped(r) };
            &&& range_start(w) == range_start(r)
            &&& range_end(w) == range_end(r)
            &&& (r.anchor != r.head ==> range_direction(w) == d)
            &&& (r.anchor == r.head ==> w == r)
        }),
{
}

/// Extending covers both the old range and `[from, to]`, nothing more,
/// and keeps the direction of a non-empty range.
pub proof fn lemma_extend_covers(r: HelixRange, from: usize, to: usize)
    requires
        from <= to,
    ensures
        ({
            let e = range_extended(r, from, to);
            &&& range_start(e) == (if from < range_start(r) { from } else { range_start(r) })
            &&& range_end(e) == (if to > range_end(r) { to } else { range_end(r) })
            &&& (r.anchor != r.head ==> range_direction(e) == range_direction(r))
        }),
{
}

} // verus!

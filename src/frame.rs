use vstd::prelude::*;
use crate::interval::RangeF32;

verus! {

/// A two-dimensional viewport: `x` along the time slots, `y` along prices.
#[derive(Clone, Copy, Debug, PartialEq, Eq, Structural)]
pub struct Frame {
    pub x: RangeF32,
    pub y: RangeF32,
}

pub open spec fn min_i64(a: i64, b: i64) -> i64 {
    if a < b {
        a
    } else {
        b
    }
}

pub open spec fn max_i64(a: i64, b: i64) -> i64 {
    if a > b {
        a
    } else {
        b
    }
}

/// The smallest range that starts no later and ends no earlier than either input.
pub open spec fn range_union(a: RangeF32, b: RangeF32) -> RangeF32 {
    RangeF32 { start: min_i64(a.start, b.start), end: max_i64(a.end, b.end) }
}

/// Both axes of `a` and `b` joined.
pub open spec fn frame_union(a: Frame, b: Frame) -> Frame {
    Frame { x: range_union(a.x, b.x), y: range_union(a.y, b.y) }
}

impl Frame {
    pub fn new(x: RangeF32, y: RangeF32) -> (r: Frame)
        ensures
            r.x == x,
            r.y == y,
    {
        Frame { x, y }
    }

    pub fn range_x(&self) -> (r: &RangeF32)
        ensures
            *r == self.x,
    {
        &self.x
    }

    /// The time axis, open for panning and resizing; the price axis is kept.
    pub fn range_x_mut(&mut self) -> (r: &mut RangeF32)
        ensures
            *r == old(self).x,
            *final(self) == (Frame { x: *final(r), y: old(self).y }),
    {
        &mut self.x
    }

    pub fn range_y(&self) -> (r: &RangeF32)
        ensures
            *r == self.y,
    {
        &self.y
    }

    /// The size of the time axis, `None` if it is empty.
    pub fn width(&self) -> (r: Option<u64>)
        ensures
            self.x.spec_is_empty() ==> r.is_none(),
            !self.x.spec_is_empty() ==> r == Some((self.x.end - self.x.start) as u64),
    {
        self.x.size()
    }

    /// The size of the price axis, `None` if it is empty.
    pub fn height(&self) -> (r: Option<u64>)
        ensures
            self.y.spec_is_empty() ==> r.is_none(),
            !self.y.spec_is_empty() ==> r == Some((self.y.end - self.y.start) as u64),
    {
        self.y.size()
    }
}

impl Default for Frame {
    /// Both axes `[0, 0)`.
    fn default() -> (r: Frame)
        ensures
            r == (Frame { x: RangeF32 { start: 0, end: 0 }, y: RangeF32 { start: 0, end: 0 } }),
    {
        Frame { x: RangeF32 { start: 0, end: 0 }, y: RangeF32 { start: 0, end: 0 } }
    }
}

/// The frame that covers both `a` and `b`: on each axis the lower of the starts
/// and the higher of the ends.
pub fn union(a: &Frame, b: &Frame) -> (r: Frame)
    ensures
        r == frame_union(*a, *b),
{
    Frame::new(
        RangeF32::new(
            if a.x.start < b.x.start { a.x.start } else { b.x.start },
            if a.x.end > b.x.end { a.x.end } else { b.x.end },
        ),
        RangeF32::new(
            if a.y.start < b.y.start { a.y.start } else { b.y.start },
            if a.y.end > b.y.end { a.y.end } else { b.y.end },
        ),
    )
}

/// Joining frames is commutative, associative and idempotent.
pub proof fn lemma_union_laws(a: Frame, b: Frame, c: Frame)
    ensures
        frame_union(a, b) == frame_union(b, a),
        frame_union(frame_union(a, b), c) == frame_union(a, frame_union(b, c)),
        frame_union(a, a) == a,
{
}

} // verus!

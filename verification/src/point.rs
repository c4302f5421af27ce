//! A fixed-capacity buffer of laser points.
use vstd::prelude::*;
use crate::circular_buffer::CircularBuffer;

verus! {

#[derive(Debug)]
pub enum PointBufferError {
    InsufficientCapacity,
}

/// A laser point: position, then red, green and blue intensity.
#[derive(Clone, Copy, Debug, Default)]
pub struct Point {
    x: i16,
    y: i16,
    r: u16,
    g: u16,
    b: u16,
}

impl View for Point {
    type V = (i16, i16, u16, u16, u16);

    closed spec fn view(&self) -> (i16, i16, u16, u16, u16) {
        (self.x, self.y, self.r, self.g, self.b)
    }
}

impl Point {
    pub fn new(x: i16, y: i16, r: u16, g: u16, b: u16) -> (p: Self)
        ensures
            p@ == (x, y, r, g, b),
    {
        Self { x: x, y: y, r: r, g: g, b: b }
    }
}

/// A first-in first-out buffer that holds at most `N` points.
#[derive(Debug)]
pub struct PointBuffer<const N: usize> {
    ring: CircularBuffer<Point>,
}

impl<const N: usize> View for PointBuffer<N> {
    type V = Seq<Point>;

    /// The buffered points, oldest first.
    closed spec fn view(&self) -> Seq<Point> {
        self.ring@
    }
}

impl<const N: usize> PointBuffer<N> {
    /// The buffer's internal invariant, which every operation keeps.
    pub closed spec fn wf(&self) -> bool {
        self.ring.wf() && self.ring.cap() == N
    }

    pub fn new() -> (b: PointBuffer<N>)
        ensures
            b.wf(),
            b@ == Seq::<Point>::empty(),
    {
        PointBuffer { ring: CircularBuffer::new(N) }
    }

    /// Returns true if no point is buffered.
    pub fn is_empty(&self) -> (r: bool)
        requires
            self.wf(),
        ensures
            r == (self@.len() == 0),
    {
        self.ring.is_empty()
    }

    /// Returns true if `N` points are buffered.
    pub fn is_full(&self) -> (r: bool)
        requires
            self.wf(),
        ensures
            r == (self@.len() == N),
    {
        self.ring.is_full()
    }

    /// Returns the number of points that can still be pushed.
    pub fn capacity(&self) -> (n: usize)
        requires
            self.wf(),
        ensures
            n == N - self@.len(),
    {
        self.ring.remaining()
    }

    /// Returns the number of buffered points.
    pub fn count(&self) -> (n: usize)
        requires
            self.wf(),
        ensures
            n == self@.len(),
            n <= N,
    {
        self.ring.len()
    }

    /// Pushes `point` and returns true, or returns false and leaves the
    /// buffer unchanged when it is full.
    pub fn push(&mut self, point: Point) -> (pushed: bool)
        requires
            old(self).wf(),
        ensures
            final(self).wf(),
            pushed == (old(self)@.len() < N),
            pushed ==> final(self)@ == old(self)@.push(point),
            !pushed ==> final(self)@ == old(self)@,
    {
        proof {
            self.ring.lemma_len_bounded();
        }
        self.ring.push(point).is_none()
    }

    /// Pushes every point of `points`, in order, and returns how many were
    /// pushed; when they do not all fit, pushes none and returns an error.
    pub fn push_from_slice(&mut self, points: &[Point]) -> (r: Result<usize, PointBufferError>)
        requires
            old(self).wf(),
        ensures
            final(self).wf(),
            old(self)@.len() + points@.len() <= N ==> r == Ok::<usize, PointBufferError>(
                points@.len() as usize,
            ) && final(self)@ == old(self)@ + points@,
            old(self)@.len() + points@.len() > N ==> r is Err && final(self)@ == old(self)@,
    {
        let remaining = self.capacity();
        if points.len() > remaining {
            return Err(PointBufferError::InsufficientCapacity);
        }
        let ghost start = self@;
        let mut i: usize = 0;
        while i < points.len()
            invariant
                self.wf(),
                0 <= i <= points@.len(),
                start.len() + points@.len() <= N,
                self@ == start + points@.subrange(0, i as int),
            decreases points@.len() - i,
        {
            let pushed = self.push(points[i]);
            assert(pushed);
            i = i + 1;
            assert(self@ =~= start + points@.subrange(0, i as int));
        }
        assert(points@.subrange(0, points@.len() as int) =~= points@);
        Ok(points.len())
    }

    /// Returns the oldest point and removes it, or `None` when empty.
    pub fn pop(&mut self) -> (r: Option<Point>)
        requires
            old(self).wf(),
        ensures
            final(self).wf(),
            old(self)@.len() == 0 ==> r is None && final(self)@ == old(self)@,
            old(self)@.len() > 0 ==> r == Some(old(self)@[0]) && final(self)@
                == old(self)@.drop_first(),
    {
        self.ring.pop()
    }

    /// Leaves both the buffer and `points` as they are.
    pub fn pop_into_slice(&mut self, points: &mut [Point])
        requires
            old(self).wf(),
        ensures
            final(self).wf(),
            final(self)@ == old(self)@,
            final(points)@ == old(points)@,
    {
    }
}

} // verus!

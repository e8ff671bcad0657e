//! Storage addressed by a point in two dimensions, and the fixed-size grid
//! that provides it.

use vstd::prelude::*;

verus! {

/// A position in a grid: `x` counts columns, `y` counts rows.
#[derive(Debug, Copy, Clone, Hash, Eq, PartialEq, Structural)]
pub struct PointIndex {
    pub x: usize,
    pub y: usize,
}

impl PointIndex {
    pub fn new(x: usize, y: usize) -> (p: Self)
        ensures
            p.x == x,
            p.y == y,
    {
        Self { x, y }
    }
}

/// A container with one value at each point within its bounds.
pub trait Storage<T> {
    /// The number of columns, where it is fixed.
    spec fn spec_width(&self) -> Option<usize>;

    /// The number of rows, where it is fixed.
    spec fn spec_height(&self) -> Option<usize>;

    /// Whether the storage has a value at `p`. With fixed bounds these are
    /// the points whose column lies below the width and whose row lies below
    /// the height.
    spec fn holds(&self, p: PointIndex) -> bool;

    /// The value at `p`.
    spec fn cell(&self, p: PointIndex) -> T;

    fn get(&self, p: PointIndex) -> (elem: &T)
        requires
            self.holds(p),
        ensures
            *elem == self.cell(p),
    ;

    fn set(&mut self, p: PointIndex, elem: T)
        requires
            old(self).holds(p),
        ensures
            final(self).cell(p) == elem,
            final(self).spec_width() == old(self).spec_width(),
            final(self).spec_height() == old(self).spec_height(),
            forall|q: PointIndex| final(self).holds(q) == old(self).holds(q),
            forall|q: PointIndex|
                old(self).holds(q) && q != p ==> final(self).cell(q) == old(self).cell(q),
    ;

    fn height(&self) -> (h: Option<&usize>)
        ensures
            match h {
                Some(rows) => self.spec_height() == Some(*rows),
                None => self.spec_height().is_none(),
            },
    ;

    fn width(&self) -> (w: Option<&usize>)
        ensures
            match w {
                Some(columns) => self.spec_width() == Some(*columns),
                None => self.spec_width().is_none(),
            },
    ;
}

impl<T: Copy, const W: usize, const H: usize> Storage<T> for [[T; W]; H] {
    open spec fn spec_width(&self) -> Option<usize> {
        Some(W)
    }

    open spec fn spec_height(&self) -> Option<usize> {
        Some(H)
    }

    open spec fn holds(&self, p: PointIndex) -> bool {
        p.x < W && p.y < H
    }

    open spec fn cell(&self, p: PointIndex) -> T {
        self@[p.y as int]@[p.x as int]
    }

    fn get(&self, p: PointIndex) -> (elem: &T) {
        &self[p.y][p.x]
    }

    fn set(&mut self, p: PointIndex, elem: T) {
        self[p.y][p.x] = elem;
    }

    fn height(&self) -> (h: Option<&usize>) {
        Some(&H)
    }

    fn width(&self) -> (w: Option<&usize>) {
        Some(&W)
    }
}

/// In a grid of fixed size, a value written at a point within bounds is the
/// value read back from that point, and every other point keeps its value.
pub proof fn lemma_write_then_read<T: Copy, const W: usize, const H: usize>(
    before: [[T; W]; H],
    after: [[T; W]; H],
    p: PointIndex,
    elem: T,
)
    requires
        p.x < W,
        p.y < H,
        after@ == before@.update(p.y as int, after@[p.y as int]),
        after@[p.y as int]@ == before@[p.y as int]@.update(p.x as int, elem),
    ensures
        after.holds(p),
        after.cell(p) == elem,
        forall|q: PointIndex| before.holds(q) && q != p ==> after.cell(q) == before.cell(q),
{
    assert forall|q: PointIndex| before.holds(q) && q != p implies after.cell(q) == before.cell(
        q,
    ) by {
        if q.y != p.y {
            assert(after@[q.y as int] == before@[q.y as int]);
        }
    }
}

} // verus!

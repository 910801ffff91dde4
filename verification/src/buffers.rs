//! A rectangular buffer of cells, addressed by column and row, with dots and
//! straight lines drawn into it.

use bresenham::Bresenham;
use vstd::pervasive::cloned;
use vstd::prelude::*;

use crate::discrete::Byte;
use crate::util::DeterministicRng;

verus! {

/// The largest coordinate between which a line is traced.
pub const MAX_LINE_COORDINATE: usize = 0x1000_0000;

/// The points of the line from `from` towards `to` as
/// `bresenham::Bresenham` yields them.
pub uninterp spec fn line_points(from: (isize, isize), to: (isize, isize)) -> Seq<(isize, isize)>;

/// Whether `v` lies between `a` and `b`, whichever of the two is the lesser.
pub open spec fn lies_between(a: isize, b: isize, v: isize) -> bool {
    (a <= v <= b) || (b <= v <= a)
}

/// Collects what `bresenham::Bresenham::new(from, to)` yields. The iterator
/// computes with differences of the coordinates, which must not overflow;
/// what it yields depends on the two end points alone. It walks from the
/// first end towards the second one step along the longer side at a time,
/// and moves along the shorter side by no more than the ends differ there:
/// each point lies between the two ends along both axes.
#[verifier::external_body]
fn bresenham_line(from: (isize, isize), to: (isize, isize)) -> (points: Vec<(isize, isize)>)
    requires
        0 <= from.0 <= MAX_LINE_COORDINATE,
        0 <= from.1 <= MAX_LINE_COORDINATE,
        0 <= to.0 <= MAX_LINE_COORDINATE,
        0 <= to.1 <= MAX_LINE_COORDINATE,
    ensures
        points@ == line_points(from, to),
        forall|i: int|
            0 <= i < points@.len() ==> lies_between(from.0, to.0, (#[trigger] points@[i]).0)
                && lies_between(from.1, to.1, points@[i].1),
{
    Bresenham::new(from, to).collect()
}

/// The extent of a buffer.
#[derive(Debug, Clone, Copy)]
pub struct BufferInfo {
    pub width: usize,
    pub height: usize,
}

/// A rectangle of cells.
pub struct Buffer<T> {
    cells: Vec<T>,
    width: usize,
    height: usize,
}

/// Whether the point names a cell of a buffer of this extent.
pub open spec fn in_bounds(p: (isize, isize), width: int, height: int) -> bool {
    0 <= p.0 < width && 0 <= p.1 < height
}

/// Whether `points` holds the cell in column `x` and row `y`.
pub open spec fn names_cell(points: Seq<(isize, isize)>, x: int, y: int) -> bool {
    exists|i: int| 0 <= i < points.len() && (#[trigger] points[i]).0 == x && points[i].1 == y
}

/// The place of the cell in column `x` of row `y` among the cells of a
/// buffer `width` wide, row after row.
pub open spec fn cell_index(x: int, y: int, width: int) -> int {
    y * width + x
}

proof fn lemma_cell_index(x: int, y: int, width: int, height: int)
    requires
        0 <= x < width,
        0 <= y < height,
    ensures
        0 <= cell_index(x, y, width) < width * height,
        forall|x2: int, y2: int|
            0 <= x2 < width && 0 <= y2 < height && (x2 != x || y2 != y) ==> #[trigger] cell_index(
                x2,
                y2,
                width,
            ) != cell_index(x, y, width),
{
    assert(0 <= y * width && y * width + width <= height * width && height * width == width
        * height) by (nonlinear_arith)
        requires
            0 <= y < height,
            0 < width,
    ;
    assert forall|x2: int, y2: int|
        0 <= x2 < width && 0 <= y2 < height && (x2 != x || y2 != y) implies #[trigger] cell_index(
        x2,
        y2,
        width,
    ) != cell_index(x, y, width) by {
        if y2 < y {
            assert(y2 * width + width <= y * width) by (nonlinear_arith)
                requires
                    y2 < y,
                    0 < width,
            ;
        } else if y < y2 {
            assert(y * width + width <= y2 * width) by (nonlinear_arith)
                requires
                    y < y2,
                    0 < width,
            ;
        }
    }
}

impl<T> Buffer<T> {
    /// The invariant of the buffer: it holds one cell for each column of
    /// each row.
    pub closed spec fn wf(self) -> bool {
        self.cells@.len() == self.width * self.height
    }

    /// The number of columns.
    pub closed spec fn spec_width(self) -> nat {
        self.width as nat
    }

    /// The number of rows.
    pub closed spec fn spec_height(self) -> nat {
        self.height as nat
    }

    /// The cell in column `x` of row `y`.
    pub closed spec fn cell(self, x: int, y: int) -> T {
        self.cells@[cell_index(x, y, self.width as int)]
    }

    /// Whether the point names a cell of the buffer.
    pub open spec fn holds(self, p: (isize, isize)) -> bool {
        in_bounds(p, self.spec_width() as int, self.spec_height() as int)
    }

    /// Whether the two buffers have the same extent.
    pub open spec fn same_extent(self, other: Self) -> bool {
        self.spec_width() == other.spec_width() && self.spec_height() == other.spec_height()
    }

    /// A buffer of the given extent over the cells row after row.
    pub fn new(cells: Vec<T>, width: usize, height: usize) -> (b: Self)
        requires
            cells@.len() == width * height,
        ensures
            b.wf(),
            b.spec_width() == width,
            b.spec_height() == height,
            forall|x: int, y: int|
                0 <= x < width && 0 <= y < height ==> #[trigger] b.cell(x, y) == cells@[cell_index(
                    x,
                    y,
                    width as int,
                )],
    {
        Buffer { cells, width, height }
    }

    /// The number of columns.
    pub fn width(&self) -> (w: usize)
        ensures
            w == self.spec_width(),
    {
        self.width
    }

    /// The number of rows.
    pub fn height(&self) -> (h: usize)
        ensures
            h == self.spec_height(),
    {
        self.height
    }

    /// The extent of the buffer.
    pub fn info(&self) -> (i: BufferInfo)
        ensures
            i.width == self.spec_width(),
            i.height == self.spec_height(),
    {
        BufferInfo { width: self.width, height: self.height }
    }

    /// The cell in column `x` of row `y`.
    pub fn get(&self, x: usize, y: usize) -> (c: &T)
        requires
            self.wf(),
            x < self.spec_width(),
            y < self.spec_height(),
        ensures
            *c == self.cell(x as int, y as int),
    {
        let len = self.cells.len();
        proof {
            lemma_cell_index(x as int, y as int, self.width as int, self.height as int);
            assert(y * self.width <= cell_index(x as int, y as int, self.width as int));
        }
        &self.cells[y * self.width + x]
    }

    /// Replaces the cell at `pos`, column first, and leaves the others.
    pub fn draw_dot(&mut self, pos: (usize, usize), value: T)
        requires
            old(self).wf(),
            pos.0 < old(self).spec_width(),
            pos.1 < old(self).spec_height(),
        ensures
            final(self).wf(),
            final(self).same_extent(*old(self)),
            final(self).cell(pos.0 as int, pos.1 as int) == value,
            forall|x: int, y: int|
                0 <= x < old(self).spec_width() && 0 <= y < old(self).spec_height() && (x != pos.0
                    || y != pos.1) ==> #[trigger] final(self).cell(x, y) == old(self).cell(x, y),
    {
        let len = self.cells.len();
        proof {
            lemma_cell_index(pos.0 as int, pos.1 as int, self.width as int, self.height as int);
            assert(pos.1 * self.width <= cell_index(
                pos.0 as int,
                pos.1 as int,
                self.width as int,
            ));
        }
        let index = pos.1 * self.width + pos.0;
        self.cells.set(index, value);
        proof {
            assert forall|x: int, y: int|
                0 <= x < old(self).spec_width() && 0 <= y < old(self).spec_height() && (x != pos.0
                    || y != pos.1) implies #[trigger] self.cell(x, y) == old(self).cell(x, y) by {
                lemma_cell_index(x, y, self.width as int, self.height as int);
                assert(cell_index(x, y, self.width as int) != index);
            }
        }
    }

    /// Whether every point names a cell of the buffer.
    pub fn holds_all(&self, points: &Vec<(isize, isize)>) -> (r: bool)
        ensures
            r == forall|i: int| 0 <= i < points@.len() ==> self.holds(#[trigger] points@[i]),
    {
        let mut i: usize = 0;
        while i < points.len()
            invariant
                i <= points@.len(),
                forall|j: int| 0 <= j < i ==> self.holds(#[trigger] points@[j]),
            decreases points@.len() - i,
        {
            let p = points[i];
            if !(0 <= p.0 && 0 <= p.1 && (p.0 as usize) < self.width && (p.1 as usize)
                < self.height) {
                assert(!self.holds(points@[i as int]));
                return false;
            }
            i += 1;
        }
        true
    }
}

impl<T: Clone> Buffer<T> {
    /// Whether `after` is `before` with a clone of `value` in every cell
    /// that `points` names, and the other cells as they were.
    pub open spec fn drawn(before: Self, after: Self, points: Seq<(isize, isize)>, value: T) -> bool {
        &&& after.wf()
        &&& after.same_extent(before)
        &&& forall|x: int, y: int|
            0 <= x < before.spec_width() && 0 <= y < before.spec_height() ==> if names_cell(
                points,
                x,
                y,
            ) {
                cloned(value, #[trigger] after.cell(x, y))
            } else {
                after.cell(x, y) == before.cell(x, y)
            }
    }

    /// Puts a clone of `value` into every cell that `points` names.
    pub fn draw_points(&mut self, points: &Vec<(isize, isize)>, value: &T)
        requires
            old(self).wf(),
            forall|i: int| 0 <= i < points@.len() ==> old(self).holds(#[trigger] points@[i]),
        ensures
            Self::drawn(*old(self), *final(self), points@, *value),
    {
        let mut i: usize = 0;
        while i < points.len()
            invariant
                i <= points@.len(),
                forall|j: int| 0 <= j < points@.len() ==> old(self).holds(#[trigger] points@[j]),
                Self::drawn(*old(self), *self, points@.take(i as int), *value),
            decreases points@.len() - i,
        {
            let p = points[i];
            let ghost before = *self;
            assert(old(self).holds(points@[i as int]));
            let x = p.0 as usize;
            let y = p.1 as usize;
            self.draw_dot((x, y), value.clone());
            proof {
                let done = points@.take(i as int);
                let more = points@.take(i + 1);
                assert(more[i as int] == p);
                assert forall|cx: int, cy: int|
                    0 <= cx < old(self).spec_width() && 0 <= cy < old(
                        self,
                    ).spec_height() implies if names_cell(more, cx, cy) {
                    cloned(*value, #[trigger] self.cell(cx, cy))
                } else {
                    self.cell(cx, cy) == old(self).cell(cx, cy)
                } by {
                    if cx == x && cy == y {
                        assert(more[i as int].0 == cx && more[i as int].1 == cy);
                    } else {
                        assert(self.cell(cx, cy) == before.cell(cx, cy));
                        if names_cell(more, cx, cy) {
                            let j = choose|j: int|
                                0 <= j < more.len() && (#[trigger] more[j]).0 == cx && more[j].1
                                    == cy;
                            assert(j != i);
                            assert(done[j] == more[j]);
                        }
                        if names_cell(done, cx, cy) {
                            let j = choose|j: int|
                                0 <= j < done.len() && (#[trigger] done[j]).0 == cx && done[j].1
                                    == cy;
                            assert(more[j] == done[j]);
                        }
                    }
                }
            }
            i += 1;
        }
        assert(points@.take(points@.len() as int) =~= points@);
    }

    /// Draws the line from `from` to `to`, both given column first, with
    /// clones of `value`: the traced points and then `to` itself. The line is
    /// drawn, and `true` is returned, where both ends lie in the buffer and
    /// do not pass the largest coordinate; else nothing is drawn.
    pub fn draw_line(&mut self, from: (usize, usize), to: (usize, usize), value: T) -> (done: bool)
        requires
            old(self).wf(),
        ensures
            done == Self::spec_line_fits(*old(self), from, to),
            done ==> Self::drawn(
                *old(self),
                *final(self),
                Self::spec_line(from, to),
                value,
            ),
            !done ==> *final(self) == *old(self),
    {
        if from.0 >= self.width || from.1 >= self.height || to.0 >= self.width || to.1
            >= self.height || from.0 > MAX_LINE_COORDINATE || from.1 > MAX_LINE_COORDINATE || to.0
            > MAX_LINE_COORDINATE || to.1 > MAX_LINE_COORDINATE {
            return false;
        }
        let from_point = (from.0 as isize, from.1 as isize);
        let to_point = (to.0 as isize, to.1 as isize);
        let mut points = bresenham_line(from_point, to_point);
        let ghost traced = points@;
        points.push(to_point);
        assert(points@ == Self::spec_line(from, to));
        assert forall|i: int| 0 <= i < points@.len() implies self.holds(
            #[trigger] points@[i],
        ) by {
            if i < traced.len() {
                assert(points@[i] == traced[i]);
                assert(lies_between(from_point.0, to_point.0, traced[i].0));
                assert(lies_between(from_point.1, to_point.1, traced[i].1));
            }
        }
        self.draw_points(&points, &value);
        true
    }

    /// The points of the line between two cells: what is traced from the
    /// first towards the second, and then the second.
    pub open spec fn spec_line(from: (usize, usize), to: (usize, usize)) -> Seq<(isize, isize)> {
        line_points((from.0 as isize, from.1 as isize), (to.0 as isize, to.1 as isize)).push(
            (to.0 as isize, to.1 as isize),
        )
    }

    /// Whether the line between two cells can be drawn: both ends lie in
    /// the buffer and do not pass the largest coordinate.
    pub open spec fn spec_line_fits(buffer: Self, from: (usize, usize), to: (usize, usize)) -> bool {
        &&& from.0 < buffer.spec_width() && from.1 < buffer.spec_height()
        &&& to.0 < buffer.spec_width() && to.1 < buffer.spec_height()
        &&& from.0 <= MAX_LINE_COORDINATE && from.1 <= MAX_LINE_COORDINATE
        &&& to.0 <= MAX_LINE_COORDINATE && to.1 <= MAX_LINE_COORDINATE
    }
}

impl<T: Default> Default for Buffer<T> {
    /// A buffer of 255 columns and 255 rows with the default value in every
    /// cell.
    fn default() -> (b: Self)
        ensures
            b.wf(),
            b.spec_width() == 255,
            b.spec_height() == 255,
            forall|x: int, y: int|
                0 <= x < 255 && 0 <= y < 255 ==> call_ensures(
                    T::default,
                    (),
                    #[trigger] b.cell(x, y),
                ),
    {
        BufferInfo { width: 255, height: 255 }.load()
    }
}

impl BufferInfo {
    /// A buffer of this extent with a default value in every cell.
    pub fn load<T: Default>(&self) -> (b: Buffer<T>)
        requires
            self.width * self.height <= usize::MAX,
        ensures
            b.wf(),
            b.spec_width() == self.width,
            b.spec_height() == self.height,
            forall|x: int, y: int|
                0 <= x < self.width && 0 <= y < self.height ==> call_ensures(
                    T::default,
                    (),
                    #[trigger] b.cell(x, y),
                ),
    {
        let total = self.width * self.height;
        let mut cells: Vec<T> = Vec::new();
        let mut i: usize = 0;
        while i < total
            invariant
                i <= total,
                cells@.len() == i,
                forall|j: int| 0 <= j < i ==> call_ensures(T::default, (), #[trigger] cells@[j]),
            decreases total - i,
        {
            cells.push(T::default());
            i += 1;
        }
        proof {
            assert forall|x: int, y: int| 0 <= x < self.width && 0 <= y < self.height implies 0
                <= #[trigger] cell_index(x, y, self.width as int) < total by {
                lemma_cell_index(x, y, self.width as int, self.height as int);
            }
        }
        Buffer::new(cells, self.width, self.height)
    }

    /// Draws the extent of a buffer: the height and then the width, each
    /// from 1 to 256.
    pub fn generate_rng(rng: &mut DeterministicRng) -> (i: Self)
        ensures
            1 <= i.width <= 256,
            1 <= i.height <= 256,
    {
        let height = Byte::generate_rng(rng).into_inner() as usize + 1;
        let width = Byte::generate_rng(rng).into_inner() as usize + 1;
        BufferInfo { width, height }
    }
}

} // verus!

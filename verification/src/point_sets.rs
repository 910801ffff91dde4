//! The integer side of point-set layout: which cells of a grid are sampled,
//! how many points each ring of a ring sequence holds, and how many points a
//! layout therefore has.

use std::sync::Arc;
use vstd::pervasive::cloned;
use vstd::prelude::*;
use vstd::slice::slice_subrange;

use crate::discrete::{Boolean, Byte, Nibble};
use crate::util::DeterministicRng;

verus! {

/// One sample of a grid: its cell, and how far into the cell it lies along
/// the columns, in quarters of a cell. Along the rows every sample lies in
/// the middle of its cell.
#[derive(Clone, Copy, Debug, PartialEq, Eq, Structural)]
pub struct GridSample {
    pub column: u8,
    pub row: u8,
    pub quarters: u8,
}

/// The number of `y` in `0 .. n` with `y % 2 == parity`, for a parity of 0 or 1.
pub open spec fn parity_count(n: int, parity: int) -> int {
    (n + 1 - parity) / 2
}

/// A boolean as 0 or 1.
pub open spec fn bit(b: bool) -> int {
    if b {
        1
    } else {
        0
    }
}

/// A grid that tiles the unit square, with the rule that picks its cells.
#[derive(Clone, Copy, Debug)]
pub enum GridLayout {
    /// Every cell of the grid.
    Uniform { x_count: Nibble, y_count: Nibble },
    /// A grid of odd extents without the cells whose column and row both have
    /// the struck parity.
    Sparse { x_count: Nibble, y_count: Nibble, x_mod: Boolean, y_mod: Boolean },
    /// A grid of staggered rows without the cells whose row parity equals the
    /// column modulo 3.
    Hex { x_count: Nibble, y_count: Nibble },
    /// Every cell of a grid of staggered rows.
    Tri { x_count: Nibble, y_count: Nibble },
}

impl GridLayout {
    /// The invariant of the descriptor: both counts are nibbles.
    pub open spec fn wf(self) -> bool {
        match self {
            GridLayout::Uniform { x_count, y_count } => x_count.wf() && y_count.wf(),
            GridLayout::Sparse { x_count, y_count, .. } => x_count.wf() && y_count.wf(),
            GridLayout::Hex { x_count, y_count } => x_count.wf() && y_count.wf(),
            GridLayout::Tri { x_count, y_count } => x_count.wf() && y_count.wf(),
        }
    }

    /// The number of columns: one more than the count, raised to the next odd
    /// number for a sparse grid and to the next number that leaves 2 modulo 3
    /// for a hex grid.
    pub open spec fn spec_columns(self) -> int {
        match self {
            GridLayout::Uniform { x_count, .. } => x_count.value + 1,
            GridLayout::Tri { x_count, .. } => x_count.value + 1,
            GridLayout::Sparse { x_count, .. } => if (x_count.value + 1) % 2 == 0 {
                x_count.value + 2
            } else {
                x_count.value + 1
            },
            GridLayout::Hex { x_count, .. } => if (x_count.value + 1) % 3 == 0 {
                x_count.value + 3
            } else if (x_count.value + 1) % 3 == 1 {
                x_count.value + 2
            } else {
                x_count.value + 1
            },
        }
    }

    /// The number of rows: one more than the count, raised to the next odd
    /// number for a sparse grid and to the next even number for a hex grid.
    pub open spec fn spec_rows(self) -> int {
        match self {
            GridLayout::Uniform { y_count, .. } => y_count.value + 1,
            GridLayout::Tri { y_count, .. } => y_count.value + 1,
            GridLayout::Sparse { y_count, .. } => if (y_count.value + 1) % 2 == 0 {
                y_count.value + 2
            } else {
                y_count.value + 1
            },
            GridLayout::Hex { y_count, .. } => if (y_count.value + 1) % 2 == 1 {
                y_count.value + 2
            } else {
                y_count.value + 1
            },
        }
    }

    /// Whether the cell in column `x` and row `y` is sampled.
    pub open spec fn spec_keeps(self, x: int, y: int) -> bool {
        match self {
            GridLayout::Uniform { .. } => true,
            GridLayout::Tri { .. } => true,
            GridLayout::Sparse { x_mod, y_mod, .. } => !(x % 2 == bit(x_mod.value) && y % 2 == bit(
                y_mod.value,
            )),
            GridLayout::Hex { .. } => !(y % 2 == x % 3),
        }
    }

    /// How far into its cell a sample of row `y` lies along the columns, in
    /// quarters: the middle, or for staggered rows one quarter in even rows
    /// and three quarters in odd ones.
    pub open spec fn spec_quarters(self, y: int) -> int {
        match self {
            GridLayout::Uniform { .. } => 2,
            GridLayout::Sparse { .. } => 2,
            _ => if y % 2 == 0 {
                1
            } else {
                3
            },
        }
    }

    /// The sample of the cell in column `x` and row `y`.
    pub open spec fn spec_sample(self, x: int, y: int) -> GridSample {
        GridSample { column: x as u8, row: y as u8, quarters: self.spec_quarters(y) as u8 }
    }

    /// The samples of column `x` in the rows below `n`, in the order of the
    /// rows.
    pub open spec fn column_samples(self, x: int, n: nat) -> Seq<GridSample>
        decreases n,
    {
        if n == 0 {
            Seq::empty()
        } else if self.spec_keeps(x, n - 1) {
            self.column_samples(x, (n - 1) as nat).push(self.spec_sample(x, n - 1))
        } else {
            self.column_samples(x, (n - 1) as nat)
        }
    }

    /// The samples of the columns below `n`, column after column.
    pub open spec fn samples_upto(self, n: nat) -> Seq<GridSample>
        decreases n,
    {
        if n == 0 {
            Seq::empty()
        } else {
            self.samples_upto((n - 1) as nat) + self.column_samples(
                n - 1,
                self.spec_rows() as nat,
            )
        }
    }

    /// All samples of the grid, column after column and row after row.
    pub open spec fn spec_samples(self) -> Seq<GridSample> {
        self.samples_upto(self.spec_columns() as nat)
    }

    /// The number of cells of column `x` in the rows below `n` that are not
    /// sampled.
    pub open spec fn struck_in_column(self, x: int, n: int) -> int {
        match self {
            GridLayout::Uniform { .. } => 0,
            GridLayout::Tri { .. } => 0,
            GridLayout::Sparse { x_mod, y_mod, .. } => if x % 2 == bit(x_mod.value) {
                parity_count(n, bit(y_mod.value))
            } else {
                0
            },
            GridLayout::Hex { .. } => if x % 3 == 2 {
                0
            } else {
                parity_count(n, x % 3)
            },
        }
    }

    /// The number of cells of the whole grid that are not sampled.
    pub open spec fn spec_struck(self) -> int {
        match self {
            GridLayout::Uniform { .. } => 0,
            GridLayout::Tri { .. } => 0,
            GridLayout::Sparse { x_mod, y_mod, .. } => parity_count(
                self.spec_columns(),
                bit(x_mod.value),
            ) * parity_count(self.spec_rows(), bit(y_mod.value)),
            GridLayout::Hex { .. } => (self.spec_columns() - self.spec_columns() / 3) * (
            self.spec_rows() / 2),
        }
    }

    /// The number of samples of the grid: its cells less those struck.
    pub open spec fn spec_sample_count(self) -> int {
        self.spec_columns() * self.spec_rows() - self.spec_struck()
    }

    /// The one grid without a sample: a single cell that is struck.
    pub open spec fn is_empty_grid(self) -> bool {
        self matches GridLayout::Sparse { x_count, y_count, x_mod, y_mod } && x_count.value == 0
            && y_count.value == 0 && !x_mod.value && !y_mod.value
    }

    /// Whether both counts are nibbles.
    pub fn is_well_formed(&self) -> (r: bool)
        ensures
            r == self.wf(),
    {
        match self {
            GridLayout::Uniform { x_count, y_count } => x_count.is_well_formed()
                && y_count.is_well_formed(),
            GridLayout::Sparse { x_count, y_count, .. } => x_count.is_well_formed()
                && y_count.is_well_formed(),
            GridLayout::Hex { x_count, y_count } => x_count.is_well_formed()
                && y_count.is_well_formed(),
            GridLayout::Tri { x_count, y_count } => x_count.is_well_formed()
                && y_count.is_well_formed(),
        }
    }

    /// The number of columns of the grid.
    pub fn columns(&self) -> (r: u8)
        requires
            self.wf(),
        ensures
            r == self.spec_columns(),
            1 <= r <= 17,
    {
        match self {
            GridLayout::Uniform { x_count, .. } => x_count.into_inner() + 1,
            GridLayout::Tri { x_count, .. } => x_count.into_inner() + 1,
            GridLayout::Sparse { x_count, .. } => {
                let x_count: u8 = x_count.into_inner() + 1;
                if x_count % 2 == 0 {
                    x_count + 1
                } else {
                    x_count
                }
            },
            GridLayout::Hex { x_count, .. } => {
                let x_count: u8 = x_count.into_inner() + 1;
                if x_count % 3 == 0 {
                    x_count + 2
                } else if x_count % 3 == 1 {
                    x_count + 1
                } else {
                    x_count
                }
            },
        }
    }

    /// The number of rows of the grid.
    pub fn rows(&self) -> (r: u8)
        requires
            self.wf(),
        ensures
            r == self.spec_rows(),
            1 <= r <= 17,
    {
        match self {
            GridLayout::Uniform { y_count, .. } => y_count.into_inner() + 1,
            GridLayout::Tri { y_count, .. } => y_count.into_inner() + 1,
            GridLayout::Sparse { y_count, .. } => {
                let y_count: u8 = y_count.into_inner() + 1;
                if y_count % 2 == 0 {
                    y_count + 1
                } else {
                    y_count
                }
            },
            GridLayout::Hex { y_count, .. } => {
                let y_count: u8 = y_count.into_inner() + 1;
                if y_count % 2 == 1 {
                    y_count + 1
                } else {
                    y_count
                }
            },
        }
    }

    /// Whether the cell in column `x` and row `y` is sampled.
    pub fn keeps(&self, x: u8, y: u8) -> (r: bool)
        ensures
            r == self.spec_keeps(x as int, y as int),
    {
        match self {
            GridLayout::Uniform { .. } => true,
            GridLayout::Tri { .. } => true,
            GridLayout::Sparse { x_mod, y_mod, .. } => {
                let x_mod: u8 = if x_mod.into_inner() {
                    1
                } else {
                    0
                };
                let y_mod: u8 = if y_mod.into_inner() {
                    1
                } else {
                    0
                };
                !(x % 2 == x_mod && y % 2 == y_mod)
            },
            GridLayout::Hex { .. } => !(y % 2 == x % 3),
        }
    }

    /// How far into its cell a sample of row `y` lies along the columns, in
    /// quarters.
    pub fn quarters(&self, y: u8) -> (r: u8)
        ensures
            r == self.spec_quarters(y as int),
    {
        match self {
            GridLayout::Uniform { .. } => 2,
            GridLayout::Sparse { .. } => 2,
            _ => if y % 2 == 0 {
                1
            } else {
                3
            },
        }
    }

    /// The samples of the grid, column after column and row after row.
    pub fn samples(&self) -> (v: Vec<GridSample>)
        requires
            self.wf(),
        ensures
            v@ == self.spec_samples(),
            v@.len() == self.spec_sample_count(),
            v@.len() <= 256,
            v@.len() == 0 <==> self.is_empty_grid(),
    {
        let columns = self.columns();
        let rows = self.rows();
        let mut v: Vec<GridSample> = Vec::new();
        let mut x: u8 = 0;
        while x < columns
            invariant
                x <= columns,
                columns == self.spec_columns(),
                rows == self.spec_rows(),
                v@ == self.samples_upto(x as nat),
            decreases columns - x,
        {
            let mut y: u8 = 0;
            while y < rows
                invariant
                    y <= rows,
                    x < columns,
                    rows == self.spec_rows(),
                    v@ == self.samples_upto(x as nat) + self.column_samples(x as int, y as nat),
                decreases rows - y,
            {
                if self.keeps(x, y) {
                    v.push(GridSample { column: x, row: y, quarters: self.quarters(y) });
                }
                y += 1;
                assert(v@ =~= self.samples_upto(x as nat) + self.column_samples(
                    x as int,
                    y as nat,
                ));
            }
            x += 1;
        }
        proof {
            self.lemma_sample_count();
        }
        v
    }

    proof fn lemma_column_count(self, x: int, n: nat)
        requires
            0 <= x,
        ensures
            self.column_samples(x, n).len() == n - self.struck_in_column(x, n as int),
        decreases n,
    {
        if n > 0 {
            self.lemma_column_count(x, (n - 1) as nat);
        }
    }

    /// The number of cells in the columns below `n` that are not sampled.
    spec fn struck_upto(self, n: int) -> int {
        match self {
            GridLayout::Uniform { .. } => 0,
            GridLayout::Tri { .. } => 0,
            GridLayout::Sparse { x_mod, y_mod, .. } => parity_count(n, bit(x_mod.value))
                * parity_count(self.spec_rows(), bit(y_mod.value)),
            GridLayout::Hex { .. } => (n - n / 3) * (self.spec_rows() / 2),
        }
    }

    proof fn lemma_upto_count(self, n: nat)
        requires
            self.wf(),
        ensures
            self.samples_upto(n).len() == n * self.spec_rows() - self.struck_upto(n as int),
        decreases n,
    {
        let rows = self.spec_rows();
        if n == 0 {
            assert(0 * rows == 0) by (nonlinear_arith);
            match self {
                GridLayout::Sparse { x_mod, y_mod, .. } => {
                    let a = parity_count(0, bit(x_mod.value));
                    let c = parity_count(rows, bit(y_mod.value));
                    assert(a * c == 0) by (nonlinear_arith)
                        requires
                            a == 0,
                    ;
                },
                GridLayout::Hex { .. } => {
                    let a = 0 - 0int / 3;
                    let c = rows / 2;
                    assert(a * c == 0) by (nonlinear_arith)
                        requires
                            a == 0,
                    ;
                },
                _ => {},
            }
        } else {
            let m = (n - 1) as nat;
            self.lemma_upto_count(m);
            self.lemma_column_count(m as int, rows as nat);
            assert(n * rows == m * rows + rows) by (nonlinear_arith)
                requires
                    n == m + 1,
            ;
            let in_column = self.struck_in_column(m as int, rows);
            match self {
                GridLayout::Sparse { x_mod, y_mod, .. } => {
                    let a = parity_count(m as int, bit(x_mod.value));
                    let b = parity_count(n as int, bit(x_mod.value));
                    let c = parity_count(rows, bit(y_mod.value));
                    assert(b * c == a * c + in_column) by (nonlinear_arith)
                        requires
                            (b == a + 1 && in_column == c) || (b == a && in_column == 0),
                    ;
                },
                GridLayout::Hex { .. } => {
                    let a = m - m / 3;
                    let b = n - n / 3;
                    let c = rows / 2;
                    assert(parity_count(rows, 0) == c && parity_count(rows, 1) == c);
                    assert(b * c == a * c + in_column) by (nonlinear_arith)
                        requires
                            (b == a + 1 && in_column == c) || (b == a && in_column == 0),
                    ;
                },
                _ => {},
            }
        }
    }

    /// A grid has as many samples as it has cells that are not struck; that
    /// is at most 256, and at least one but for the single struck cell.
    pub proof fn lemma_sample_count(self)
        requires
            self.wf(),
        ensures
            self.spec_samples().len() == self.spec_sample_count(),
            self.spec_samples().len() <= 256,
            self.spec_samples().len() == 0 <==> self.is_empty_grid(),
    {
        let columns = self.spec_columns();
        let rows = self.spec_rows();
        self.lemma_upto_count(columns as nat);
        match self {
            GridLayout::Sparse { x_mod, y_mod, .. } => {
                let a = parity_count(columns, bit(x_mod.value));
                let b = parity_count(rows, bit(y_mod.value));
                let i = columns / 2;
                let j = rows / 2;
                assert(columns == 2 * i + 1 && rows == 2 * j + 1);
                assert(columns * rows - a * b <= 256 && (columns * rows - a * b == 0 <==> (i == 0
                    && j == 0 && a == 1 && b == 1)) && columns * rows - a * b >= 0)
                    by (nonlinear_arith)
                    requires
                        columns == 2 * i + 1,
                        rows == 2 * j + 1,
                        0 <= i <= 8,
                        0 <= j <= 8,
                        a == i || a == i + 1,
                        b == j || b == j + 1,
                ;
            },
            GridLayout::Hex { .. } => {
                let a = columns - columns / 3;
                let b = rows / 2;
                assert(columns * rows - a * b <= 256 && columns * rows - a * b > 0)
                    by (nonlinear_arith)
                    requires
                        2 <= columns <= 17,
                        rows == 2 * b,
                        1 <= b <= 8,
                        1 <= a <= columns,
                        3 * a >= 2 * columns,
                ;
            },
            _ => {
                assert(columns * rows <= 256 && columns * rows > 0) by (nonlinear_arith)
                    requires
                        1 <= columns <= 16,
                        1 <= rows <= 16,
                ;
            },
        }
    }
}

/// The recurrence by which the rings of a ring sequence grow.
#[derive(Clone, Copy, Debug)]
pub enum RingGrowth {
    /// Each ring has a fixed number of points more than the ring before the
    /// last.
    Linear { ring_size_delta: Nibble },
    /// Each ring has as many points as the last two together.
    Fibonacci,
    /// Each ring has twice as many points as the ring before the last.
    Squared,
}

/// The running state of a ring recurrence: the size of the last ring, the
/// size of the next one, and the sum of the next sizes so far.
pub struct RingState {
    pub prev: int,
    pub new: int,
    pub total: int,
}

impl RingGrowth {
    /// The invariant of the descriptor: the delta is a nibble.
    pub open spec fn wf(self) -> bool {
        self matches RingGrowth::Linear { ring_size_delta } ==> ring_size_delta.wf()
    }

    /// The size that follows the sizes `prev` and `new`.
    pub open spec fn spec_next(self, prev: int, new: int) -> int {
        match self {
            RingGrowth::Linear { ring_size_delta } => prev + ring_size_delta.value,
            RingGrowth::Fibonacci => new + prev,
            RingGrowth::Squared => prev * 2,
        }
    }

    /// The state of the recurrence after `k` steps. It starts from a last
    /// size of 0, a next size of 1 and a sum of 0.
    pub open spec fn spec_state(self, k: nat) -> RingState
        decreases k,
    {
        if k == 0 {
            RingState { prev: 0, new: 1, total: 0 }
        } else {
            let before = self.spec_state((k - 1) as nat);
            let new = self.spec_next(before.prev, before.new);
            RingState { prev: before.new, new, total: before.total + new }
        }
    }

    /// The number of points of ring `i`.
    pub open spec fn spec_ring_size(self, i: nat) -> int {
        self.spec_state(i).new
    }

    /// The sum that the recurrence holds against the budget after `k` steps.
    pub open spec fn spec_running_total(self, k: nat) -> int {
        self.spec_state(k).total
    }

    /// Whether `sizes` is the ring sequence of this recurrence under the
    /// budget: ring after ring as the recurrence gives them, at least one
    /// ring, and then as many more as keep the running total within the
    /// budget.
    pub open spec fn is_ring_sequence(self, budget: int, sizes: Seq<u16>) -> bool {
        &&& sizes.len() >= 1
        &&& forall|i: int| 0 <= i < sizes.len() ==> sizes[i] == self.spec_ring_size(i as nat)
        &&& forall|k: nat| 2 <= k <= sizes.len() ==> #[trigger] self.spec_running_total(k) <= budget
        &&& self.spec_running_total((sizes.len() + 1) as nat) > budget
    }

    /// Whether the delta is a nibble.
    pub fn is_well_formed(&self) -> (r: bool)
        ensures
            r == self.wf(),
    {
        match self {
            RingGrowth::Linear { ring_size_delta } => ring_size_delta.is_well_formed(),
            _ => true,
        }
    }

    proof fn lemma_state_bounds(self, k: nat)
        requires
            self.wf(),
        ensures
            self.spec_state(k).prev >= 0,
            self.spec_state(k).new >= 0,
            self.spec_state(k).prev + self.spec_state(k).new >= 1,
            self.spec_state(k).total >= 0,
            k >= 1 ==> self.spec_state(k).new <= self.spec_state(k).total,
            k >= 1 ==> self.spec_state(k).prev <= self.spec_state(k).total + 1,
            k >= 1 ==> self.spec_state(k).total >= self.spec_state((k - 1) as nat).total,
        decreases k,
    {
        if k > 0 {
            self.lemma_state_bounds((k - 1) as nat);
        }
    }

    /// The ring sizes of a ring sequence: the recurrence is run until the
    /// running total would pass the budget, which is `max_count` or 1 if that
    /// is more, and at least one ring is kept.
    pub fn ring_sizes(self, max_count: Byte) -> (sizes: Vec<u16>)
        requires
            self.wf(),
        ensures
            self.is_ring_sequence(spec_budget(max_count), sizes@),
            sizes@ == self.spec_ring_sizes(spec_budget(max_count)),
            1 <= spec_sum(sizes@) <= 256,
    {
        let budget: u16 = if max_count.into_inner() < 1 {
            1
        } else {
            max_count.into_inner() as u16
        };
        let mut prev_total: u16 = 0;
        let mut new_total: u16 = 1;
        let mut total_total: u16 = 0;
        let mut sequence: Vec<u16> = Vec::new();
        let ghost mut k: nat = 0;
        loop
            invariant_except_break
                prev_total == self.spec_state(k).prev,
                new_total == self.spec_state(k).new,
                total_total == self.spec_state(k).total,
                total_total <= budget + 15,
            invariant
                self.wf(),
                budget == spec_budget(max_count),
                1 <= budget <= 255,
                k == sequence@.len(),
                forall|i: int| 0 <= i < k ==> sequence@[i] == self.spec_ring_size(i as nat),
                forall|j: nat| 2 <= j <= k ==> #[trigger] self.spec_running_total(j) <= budget,
            ensures
                self.is_ring_sequence(budget as int, sequence@),
            decreases
                    2 * (budget + 600 - total_total) - (if new_total == 0 {
                        1int
                    } else {
                        0int
                    }),
        {
            proof {
                self.lemma_state_bounds(k);
                self.lemma_state_bounds(k + 1);
                self.lemma_state_bounds(k + 2);
            }
            let current_total = new_total;
            new_total = match self {
                RingGrowth::Linear { ring_size_delta } => prev_total
                    + ring_size_delta.into_inner() as u16,
                RingGrowth::Fibonacci => new_total + prev_total,
                RingGrowth::Squared => prev_total * 2,
            };
            prev_total = current_total;
            total_total += new_total;
            if total_total <= budget || sequence.is_empty() {
                sequence.push(prev_total);
                proof {
                    k = k + 1;
                }
            } else {
                break ;
            }
        }
        proof {
            self.lemma_ring_point_count(budget as int, sequence@);
            self.lemma_ring_sequence_unique(
                budget as int,
                sequence@,
                self.spec_ring_sizes(budget as int),
            );
        }
        sequence
    }

    /// The ring sequence of this recurrence under the budget.
    pub open spec fn spec_ring_sizes(self, budget: int) -> Seq<u16> {
        choose|sizes: Seq<u16>| self.is_ring_sequence(budget, sizes)
    }

    /// A recurrence has one ring sequence under a budget and no other.
    pub proof fn lemma_ring_sequence_unique(self, budget: int, a: Seq<u16>, b: Seq<u16>)
        requires
            self.is_ring_sequence(budget, a),
        ensures
            self.is_ring_sequence(budget, b) ==> a == b,
            self.spec_ring_sizes(budget) == a,
    {
        if self.is_ring_sequence(budget, b) {
            self.lemma_same_length(budget, a, b);
            assert(a =~= b);
        }
        let c = self.spec_ring_sizes(budget);
        assert(self.is_ring_sequence(budget, c));
        self.lemma_same_length(budget, a, c);
        assert(a =~= c);
    }

    proof fn lemma_same_length(self, budget: int, a: Seq<u16>, b: Seq<u16>)
        requires
            self.is_ring_sequence(budget, a),
            self.is_ring_sequence(budget, b),
        ensures
            a.len() == b.len(),
    {
        if a.len() < b.len() {
            assert(self.spec_running_total((a.len() + 1) as nat) <= budget);
        } else if b.len() < a.len() {
            assert(self.spec_running_total((b.len() + 1) as nat) <= budget);
        }
    }

    proof fn lemma_partial_sum(self, sizes: Seq<u16>, n: nat)
        requires
            n <= sizes.len(),
            forall|i: int| 0 <= i < sizes.len() ==> sizes[i] == self.spec_ring_size(i as nat),
            n >= 1,
        ensures
            spec_sum(sizes.take(n as int)) == 1 + self.spec_running_total((n - 1) as nat),
        decreases n,
    {
        let s = sizes.take(n as int);
        assert(s.drop_last() =~= sizes.take(n - 1));
        if n == 1 {
            assert(spec_sum(sizes.take(0)) == 0);
        } else {
            self.lemma_partial_sum(sizes, (n - 1) as nat);
        }
    }

    /// A ring sequence has one point more than the running total stood at
    /// before its last ring: at least one point and at most 256.
    pub proof fn lemma_ring_point_count(self, budget: int, sizes: Seq<u16>)
        requires
            self.wf(),
            1 <= budget <= 255,
            self.is_ring_sequence(budget, sizes),
        ensures
            spec_sum(sizes) == 1 + self.spec_running_total((sizes.len() - 1) as nat),
            1 <= spec_sum(sizes) <= 256,
    {
        let n = sizes.len();
        self.lemma_partial_sum(sizes, n);
        assert(sizes.take(n as int) =~= sizes);
        self.lemma_state_bounds((n - 1) as nat);
        self.lemma_state_bounds(n);
    }
}

/// The budget of a ring sequence: the count asked for, or 1 if that is more.
pub open spec fn spec_budget(max_count: Byte) -> int {
    if max_count.value < 1 {
        1
    } else {
        max_count.value as int
    }
}

/// The sum of the numbers of a sequence.
pub open spec fn spec_sum(s: Seq<u16>) -> int
    decreases s.len(),
{
    if s.len() == 0 {
        0
    } else {
        spec_sum(s.drop_last()) + s.last()
    }
}

/// One point of a ring layout: its ring, its place on the ring, and the
/// number of points that share the ring.
#[derive(Clone, Copy, Debug, PartialEq, Eq, Structural)]
pub struct RingSlot {
    pub ring: usize,
    pub slot: u16,
    pub ring_size: u16,
}

/// The first `n` points of ring `ring`, which holds `size` points.
pub open spec fn ring_row(ring: int, size: u16, n: nat) -> Seq<RingSlot>
    decreases n,
{
    if n == 0 {
        Seq::empty()
    } else {
        ring_row(ring, size, (n - 1) as nat).push(
            RingSlot { ring: ring as usize, slot: (n - 1) as u16, ring_size: size },
        )
    }
}

/// The points of the first `n` rings, ring after ring.
pub open spec fn slots_upto(sizes: Seq<u16>, n: nat) -> Seq<RingSlot>
    decreases n,
{
    if n == 0 {
        Seq::empty()
    } else {
        slots_upto(sizes, (n - 1) as nat) + ring_row(n - 1, sizes[n - 1], sizes[n - 1] as nat)
    }
}

/// The points of a ring layout, ring after ring and place after place.
pub open spec fn spec_ring_slots(sizes: Seq<u16>) -> Seq<RingSlot> {
    slots_upto(sizes, sizes.len())
}

proof fn lemma_ring_row_len(ring: int, size: u16, n: nat)
    ensures
        ring_row(ring, size, n).len() == n,
    decreases n,
{
    if n > 0 {
        lemma_ring_row_len(ring, size, (n - 1) as nat);
    }
}

proof fn lemma_slots_upto_len(sizes: Seq<u16>, n: nat)
    requires
        n <= sizes.len(),
    ensures
        slots_upto(sizes, n).len() == spec_sum(sizes.take(n as int)),
    decreases n,
{
    if n > 0 {
        lemma_slots_upto_len(sizes, (n - 1) as nat);
        lemma_ring_row_len(n - 1, sizes[n - 1], sizes[n - 1] as nat);
        assert(sizes.take(n as int).drop_last() =~= sizes.take(n - 1));
    }
}

/// A ring layout has as many points as its rings hold together.
pub proof fn lemma_ring_slots_len(sizes: Seq<u16>)
    ensures
        spec_ring_slots(sizes).len() == spec_sum(sizes),
{
    lemma_slots_upto_len(sizes, sizes.len());
    assert(sizes.take(sizes.len() as int) =~= sizes);
}

/// Numbers that all lie between `low` and `high` sum to between `low` and
/// `high` times their number.
pub proof fn lemma_sum_bounds(s: Seq<u16>, low: int, high: int)
    requires
        forall|i: int| 0 <= i < s.len() ==> low <= #[trigger] s[i] <= high,
    ensures
        s.len() * low <= spec_sum(s) <= s.len() * high,
    decreases s.len(),
{
    if s.len() == 0 {
        assert(0 * low == 0 && 0 * high == 0) by (nonlinear_arith);
    } else {
        lemma_sum_bounds(s.drop_last(), low, high);
        let n = s.len() as int;
        assert(n * low == (n - 1) * low + low && n * high == (n - 1) * high + high)
            by (nonlinear_arith);
    }
}

/// The points of a ring layout, ring after ring and place after place.
pub fn ring_slots(sizes: &Vec<u16>) -> (v: Vec<RingSlot>)
    ensures
        v@ == spec_ring_slots(sizes@),
        v@.len() == spec_sum(sizes@),
{
    let mut v: Vec<RingSlot> = Vec::new();
    let mut ring: usize = 0;
    while ring < sizes.len()
        invariant
            ring <= sizes@.len(),
            v@ == slots_upto(sizes@, ring as nat),
        decreases sizes@.len() - ring,
    {
        let size = sizes[ring];
        let mut slot: u16 = 0;
        while slot < size
            invariant
                slot <= size,
                ring < sizes@.len(),
                size == sizes@[ring as int],
                v@ == slots_upto(sizes@, ring as nat) + ring_row(ring as int, size, slot as nat),
            decreases size - slot,
        {
            v.push(RingSlot { ring, slot, ring_size: size });
            slot += 1;
            assert(v@ =~= slots_upto(sizes@, ring as nat) + ring_row(
                ring as int,
                size,
                slot as nat,
            ));
        }
        ring += 1;
    }
    proof {
        lemma_ring_slots_len(sizes@);
    }
    v
}

/// The ring sizes of a layout of randomly sized rings: one ring more than
/// `max_rings`, each of 1 to 16 points.
pub fn random_ring_sizes(rng: &mut DeterministicRng, max_rings: Nibble) -> (sizes: Vec<u16>)
    requires
        max_rings.wf(),
    ensures
        sizes@.len() == max_rings.value + 1,
        forall|i: int| 0 <= i < sizes@.len() ==> 1 <= #[trigger] sizes@[i] <= 16,
        max_rings.value + 1 <= spec_sum(sizes@) <= 16 * (max_rings.value + 1),
        1 <= spec_sum(sizes@) <= 256,
{
    let max_rings: u8 = max_rings.into_inner() + 1;
    let mut sequence: Vec<u16> = Vec::new();
    let mut i: u8 = 0;
    while i < max_rings
        invariant
            i <= max_rings,
            sequence@.len() == i,
            forall|j: int| 0 <= j < sequence@.len() ==> 1 <= #[trigger] sequence@[j] <= 16,
        decreases max_rings - i,
    {
        let size: u8 = Nibble::random(rng).into_inner() + 1;
        sequence.push(size as u16);
        i += 1;
    }
    proof {
        lemma_sum_bounds(sequence@, 1, 16);
        let n = sequence@.len() as int;
        assert(n * 16 <= 256 && n * 1 == n && n * 16 == 16 * n) by (nonlinear_arith)
            requires
                1 <= n <= 16,
        ;
    }
    sequence
}

/// A layout of fixed points on the corners, edges and centre of the square.
#[derive(Clone, Copy, Debug, PartialEq, Eq, Structural)]
pub enum FixedLayout {
    /// The centre alone.
    Origin,
    /// The eight points around the centre.
    Moore,
    /// The four points next to the centre along the axes.
    VonNeumann,
}

impl FixedLayout {
    /// The points of the layout, each coordinate being -1, 0 or 1.
    pub open spec fn spec_points(self) -> Seq<(i8, i8)> {
        match self {
            FixedLayout::Origin => seq![(0i8, 0i8)],
            FixedLayout::Moore => seq![
                (-1i8, -1i8),
                (-1i8, 0i8),
                (-1i8, 1i8),
                (0i8, -1i8),
                (0i8, 1i8),
                (1i8, -1i8),
                (1i8, 0i8),
                (1i8, 1i8),
            ],
            FixedLayout::VonNeumann => seq![(1i8, 0i8), (-1i8, 0i8), (0i8, 1i8), (0i8, -1i8)],
        }
    }

    /// The points in their order.
    pub fn points(&self) -> (v: Vec<(i8, i8)>)
        ensures
            v@ == self.spec_points(),
            forall|i: int|
                0 <= i < v@.len() ==> -1 <= (#[trigger] v@[i]).0 <= 1 && -1 <= v@[i].1 <= 1,
            1 <= v@.len() <= 8,
    {
        let v = match self {
            FixedLayout::Origin => vec![(0, 0)],
            FixedLayout::Moore => vec![
                (-1, -1),
                (-1, 0),
                (-1, 1),
                (0, -1),
                (0, 1),
                (1, -1),
                (1, 0),
                (1, 1),
            ],
            FixedLayout::VonNeumann => vec![(1, 0), (-1, 0), (0, 1), (0, -1)],
        };
        assert(v@ =~= self.spec_points());
        v
    }
}

/// A layout whose number of points is asked for outright.
#[derive(Clone, Copy, Debug, PartialEq, Eq, Structural)]
pub enum CountedLayout {
    /// Points drawn independently and uniformly.
    UniformDistribution,
    /// Points kept apart by a least distance; fewer than the target may be
    /// placed.
    Poisson,
    /// Points along a spiral.
    Spiral,
}

impl CountedLayout {
    /// The least number of points that the layout is asked for.
    pub open spec fn spec_floor(self) -> int {
        match self {
            CountedLayout::UniformDistribution => 2,
            CountedLayout::Poisson => 4,
            CountedLayout::Spiral => 1,
        }
    }

    /// The number of points to aim for: the count, or the floor of the
    /// layout if that is more.
    pub fn target(self, count: Byte) -> (n: usize)
        ensures
            n == if count.value < self.spec_floor() {
                self.spec_floor()
            } else {
                count.value as int
            },
            1 <= n <= 255,
    {
        let floor: u8 = match self {
            CountedLayout::UniformDistribution => 2,
            CountedLayout::Poisson => 4,
            CountedLayout::Spiral => 1,
        };
        if count.into_inner() < floor {
            floor as usize
        } else {
            count.into_inner() as usize
        }
    }
}

/// Whether a point set may hold `n` points: at least one and at most 256.
pub open spec fn spec_valid_point_count(n: int) -> bool {
    1 <= n <= 256
}

/// Whether a point set may hold `n` points.
pub fn is_valid_point_count(n: usize) -> (r: bool)
    ensures
        r == spec_valid_point_count(n as int),
{
    n > 0 && n <= 256
}

/// A shared sequence of 1 to 256 points with the descriptor that produced
/// it. The points are never changed in place: a change puts another sequence
/// in their stead.
#[derive(Debug)]
pub struct PointSet<P, G> {
    points: Arc<Vec<P>>,
    generator: G,
}

/// Calls `Arc::clone`, which makes another pointer to the same points.
#[verifier::external_body]
fn share_points<P>(points: &Arc<Vec<P>>) -> (shared: Arc<Vec<P>>)
    ensures
        shared == *points,
{
    Arc::clone(points)
}

impl<P, G: Clone> Clone for PointSet<P, G> {
    /// Shares the points and clones the descriptor.
    fn clone(&self) -> (other: Self)
        ensures
            other@ == self@,
            cloned(self.spec_generator(), other.spec_generator()),
    {
        proof {
            use_type_invariant(self);
        }
        PointSet { points: share_points(&self.points), generator: self.generator.clone() }
    }
}

impl<P, G> PointSet<P, G> {
    #[verifier::type_invariant]
    spec fn holds_valid_count(self) -> bool {
        spec_valid_point_count(self.points@.len() as int)
    }

    /// The points in their order. The descriptor is not part of the view:
    /// `spec_generator` gives it.
    pub closed spec fn view(self) -> Seq<P> {
        self.points@
    }

    /// The descriptor that produced the points.
    pub closed spec fn spec_generator(self) -> G {
        self.generator
    }

    /// A point set of the given points, which must be 1 to 256 in number.
    pub fn new(points: Arc<Vec<P>>, generator: G) -> (set: Self)
        requires
            spec_valid_point_count(points@.len() as int),
        ensures
            set@ == points@,
            set.spec_generator() == generator,
    {
        PointSet { points, generator }
    }

    /// The points in their order.
    pub fn points(&self) -> (points: &[P])
        ensures
            points@ == self@,
    {
        self.points.as_slice()
    }

    /// The descriptor that produced the points.
    pub fn generator(&self) -> (generator: &G)
        ensures
            *generator == self.spec_generator(),
    {
        &self.generator
    }

    /// The number of points, which is at least 1 and at most 256.
    pub fn len(&self) -> (n: usize)
        ensures
            n == self@.len(),
            1 <= n <= 256,
    {
        proof {
            use_type_invariant(self);
        }
        self.points.len()
    }

    /// A point set is never empty.
    pub fn is_empty(&self) -> (r: bool)
        ensures
            !r,
    {
        self.len() == 0
    }

    /// Puts other points in the stead of the present ones and keeps the
    /// descriptor.
    pub fn replace(&mut self, new_points: Arc<Vec<P>>)
        requires
            spec_valid_point_count(new_points@.len() as int),
        ensures
            final(self)@ == new_points@,
            final(self).spec_generator() == old(self).spec_generator(),
    {
        self.points = new_points;
    }

    /// The point at place `idx`.
    pub fn get(&self, idx: usize) -> (p: &P)
        requires
            idx < self@.len(),
        ensures
            *p == self@[idx as int],
    {
        &self.points[idx]
    }

    /// The point at the place that the byte names.
    pub fn get_byte(&self, idx: Byte) -> (p: &P)
        requires
            idx.value < self@.len(),
        ensures
            *p == self@[idx.value as int],
    {
        self.get(idx.into_inner() as usize)
    }

    /// The first `n` points, or all of them if there are fewer.
    pub fn first_points(&self, n: usize) -> (points: &[P])
        ensures
            points@ == self@.subrange(
                0,
                if n <= self@.len() {
                    n as int
                } else {
                    self@.len() as int
                },
            ),
    {
        let len = self.points.len();
        let end = if n <= len {
            n
        } else {
            len
        };
        slice_subrange(self.points.as_slice(), 0, end)
    }
}

/// The sum of the first numbers of a sequence is no more than the sum of all.
pub proof fn lemma_sum_of_first(s: Seq<u16>, n: int)
    requires
        0 <= n <= s.len(),
    ensures
        0 <= spec_sum(s.take(n)) <= spec_sum(s),
    decreases s.len() - n,
{
    if n == s.len() {
        assert(s.take(n) =~= s);
        lemma_sum_bounds(s, 0, 65535);
        assert(s.len() * 0 == 0) by (nonlinear_arith);
    } else {
        lemma_sum_of_first(s, n + 1);
        assert(s.take(n + 1).drop_last() =~= s.take(n));
        lemma_sum_bounds(s.take(n), 0, 65535);
        assert(s.take(n).len() * 0 == 0) by (nonlinear_arith);
    }
}

/// The sum of the numbers of a list that sums to no more than 256.
pub fn sum_of_sizes(sizes: &Vec<u16>) -> (total: usize)
    requires
        spec_sum(sizes@) <= 256,
    ensures
        total == spec_sum(sizes@),
{
    let mut total: usize = 0;
    let mut i: usize = 0;
    while i < sizes.len()
        invariant
            i <= sizes@.len(),
            total == spec_sum(sizes@.take(i as int)),
            spec_sum(sizes@) <= 256,
        decreases sizes@.len() - i,
    {
        proof {
            lemma_sum_of_first(sizes@, i + 1);
            assert(sizes@.take(i + 1).drop_last() =~= sizes@.take(i as int));
        }
        total = total + sizes[i] as usize;
        i += 1;
    }
    proof {
        assert(sizes@.take(sizes@.len() as int) =~= sizes@);
    }
    total
}

/// The integer side of the descriptor of a point set: which layout it is,
/// with the counts that the layout takes.
#[derive(Clone, Copy, Debug)]
pub enum PointLayout {
    /// Fixed points around the centre.
    Fixed { layout: FixedLayout },
    /// The sampled cells of a grid.
    Grid { layout: GridLayout },
    /// As many points as are asked for, or for a Poisson layout up to as
    /// many.
    Counted { layout: CountedLayout, count: Byte },
    /// One ring more than `max_rings`, each of 1 to 16 points drawn at
    /// random.
    RandomRings { max_rings: Nibble },
    /// The rings of a ring sequence under the budget `max_count`.
    Rings { growth: RingGrowth, max_count: Byte },
}

impl PointLayout {
    /// The invariant of the descriptor: the counts that are nibbles lie
    /// below the modulus.
    pub open spec fn wf(self) -> bool {
        match self {
            PointLayout::Grid { layout } => layout.wf(),
            PointLayout::RandomRings { max_rings } => max_rings.wf(),
            PointLayout::Rings { growth, .. } => growth.wf(),
            _ => true,
        }
    }

    /// Whether the layout yields the same number of points whenever it is
    /// generated: all do but the Poisson layout, which may stop short, and
    /// the random rings, whose sizes are drawn.
    pub open spec fn spec_is_exact(self) -> bool {
        match self {
            PointLayout::Counted { layout, .. } => layout != CountedLayout::Poisson,
            PointLayout::RandomRings { .. } => false,
            _ => true,
        }
    }

    /// The number of points that the layout yields; for a layout that is
    /// not exact, the most that it yields.
    pub open spec fn spec_point_count(self) -> int {
        match self {
            PointLayout::Fixed { layout } => layout.spec_points().len() as int,
            PointLayout::Grid { layout } => layout.spec_sample_count(),
            PointLayout::Counted { layout, count } => if count.value < layout.spec_floor() {
                layout.spec_floor()
            } else {
                count.value as int
            },
            PointLayout::RandomRings { max_rings } => 16 * (max_rings.value + 1),
            PointLayout::Rings { growth, max_count } => spec_sum(
                growth.spec_ring_sizes(spec_budget(max_count)),
            ),
        }
    }

    /// The least number of points that the layout yields.
    pub open spec fn spec_least_point_count(self) -> int {
        match self {
            PointLayout::Counted { layout: CountedLayout::Poisson, .. } => 1,
            PointLayout::RandomRings { max_rings } => max_rings.value + 1,
            _ => self.spec_point_count(),
        }
    }

    /// Whether the layout is the one grid without a sample.
    pub open spec fn is_empty_layout(self) -> bool {
        self matches PointLayout::Grid { layout } && layout.is_empty_grid()
    }

    /// Whether the counts that are nibbles lie below the modulus.
    pub fn is_well_formed(&self) -> (r: bool)
        ensures
            r == self.wf(),
    {
        match self {
            PointLayout::Grid { layout } => layout.is_well_formed(),
            PointLayout::RandomRings { max_rings } => max_rings.is_well_formed(),
            PointLayout::Rings { growth, .. } => growth.is_well_formed(),
            _ => true,
        }
    }

    /// Whether the layout yields the same number of points whenever it is
    /// generated.
    pub fn is_exact(&self) -> (r: bool)
        ensures
            r == self.spec_is_exact(),
    {
        match self {
            PointLayout::Counted { layout, .. } => match layout {
                CountedLayout::Poisson => false,
                _ => true,
            },
            PointLayout::RandomRings { .. } => false,
            _ => true,
        }
    }

    /// The number of points that the layout yields; for a layout that is
    /// not exact, the most that it yields. It is at most 256, and at least 1
    /// but for the one grid without a sample.
    pub fn point_count(&self) -> (n: usize)
        requires
            self.wf(),
        ensures
            n == self.spec_point_count(),
            n <= 256,
            n == 0 <==> self.is_empty_layout(),
            self.spec_is_exact() ==> self.spec_least_point_count() == n,
            self.spec_least_point_count() <= n,
            !self.is_empty_layout() ==> 1 <= self.spec_least_point_count(),
    {
        match self {
            PointLayout::Fixed { layout } => layout.points().len(),
            PointLayout::Grid { layout } => {
                proof {
                    layout.lemma_sample_count();
                }
                layout.samples().len()
            },
            PointLayout::Counted { layout, count } => layout.target(*count),
            PointLayout::RandomRings { max_rings } => 16 * (max_rings.into_inner() as usize + 1),
            PointLayout::Rings { growth, max_count } => {
                let sizes = growth.ring_sizes(*max_count);
                sum_of_sizes(&sizes)
            },
        }
    }
}

} // verus!

//! Rule tables of cellular automata: the elementary rule over three cells,
//! the neighbourhood shapes, the table indexed by three neighbour counts, and
//! the life-like birth and survival rules for each bit colour.

use vstd::prelude::*;

use crate::colors::BitColor;
use crate::discrete::Boolean;
use crate::util::{gen_bool, gen_range_u8, gen_usize, shuffle_colors, DeterministicRng};

verus! {

/// The place value of bit `i` of a byte.
pub open spec fn bit_weight(i: int) -> int {
    if i == 0 {
        1
    } else if i == 1 {
        2
    } else if i == 2 {
        4
    } else if i == 3 {
        8
    } else if i == 4 {
        16
    } else if i == 5 {
        32
    } else if i == 6 {
        64
    } else {
        128
    }
}

/// Whether bit `i` of `code` is set.
pub open spec fn wolfram_bit(code: u8, i: int) -> bool {
    (code as int / bit_weight(i)) % 2 == 1
}

/// The place of a neighbourhood in a rule table: the left cell counts 4, the
/// centre 2 and the right cell 1.
pub open spec fn spec_neighbourhood_index(l: bool, c: bool, r: bool) -> int {
    (if l {
        4int
    } else {
        0int
    }) + (if c {
        2int
    } else {
        0int
    }) + (if r {
        1int
    } else {
        0int
    })
}

/// A rule of a binary automaton on a line: the next state of a cell for each
/// of the eight states of the cell and its two neighbours.
#[derive(Debug)]
pub struct ElementaryAutomataRule {
    pub pattern: [Boolean; 8],
}

impl ElementaryAutomataRule {
    /// The place of a neighbourhood in a rule table.
    pub fn get_index_from_booleans(l: Boolean, c: Boolean, r: Boolean) -> (index: u8)
        ensures
            index == spec_neighbourhood_index(l.value, c.value, r.value),
            index < 8,
    {
        let mut result: u8 = 0;
        if r.into_inner() {
            result |= 1;
            assert(0u8 | 1u8 == 1u8) by (bit_vector);
        }
        let low = result;
        if c.into_inner() {
            result |= 2;
            assert(low < 2 ==> low | 2u8 == low + 2u8) by (bit_vector);
        }
        let mid = result;
        if l.into_inner() {
            result |= 4;
            assert(mid < 4 ==> mid | 4u8 == mid + 4u8) by (bit_vector);
        }
        result
    }

    /// The next state of a cell with the given left neighbour, own state and
    /// right neighbour.
    pub fn get_value_from_booleans(&self, l: Boolean, c: Boolean, r: Boolean) -> (value: Boolean)
        ensures
            value == self.pattern@[spec_neighbourhood_index(l.value, c.value, r.value)],
    {
        self.pattern[Self::get_index_from_booleans(l, c, r) as usize]
    }

    /// The rule whose table is the binary expansion of `code`: entry `i` is
    /// bit `i` of the code.
    pub fn from_wolfram_code(code: u8) -> (rule: Self)
        ensures
            forall|i: int| 0 <= i < 8 ==> (#[trigger] rule.pattern@[i]).value == wolfram_bit(code, i),
    {
        assert(((code & (1u8 << 0u8)) > 0) == ((code / 1u8) % 2u8 == 1u8)) by (bit_vector);
        assert(((code & (1u8 << 1u8)) > 0) == ((code / 2u8) % 2u8 == 1u8)) by (bit_vector);
        assert(((code & (1u8 << 2u8)) > 0) == ((code / 4u8) % 2u8 == 1u8)) by (bit_vector);
        assert(((code & (1u8 << 3u8)) > 0) == ((code / 8u8) % 2u8 == 1u8)) by (bit_vector);
        assert(((code & (1u8 << 4u8)) > 0) == ((code / 16u8) % 2u8 == 1u8)) by (bit_vector);
        assert(((code & (1u8 << 5u8)) > 0) == ((code / 32u8) % 2u8 == 1u8)) by (bit_vector);
        assert(((code & (1u8 << 6u8)) > 0) == ((code / 64u8) % 2u8 == 1u8)) by (bit_vector);
        assert(((code & (1u8 << 7u8)) > 0) == ((code / 128u8) % 2u8 == 1u8)) by (bit_vector);
        Self {
            pattern: [
                Boolean::new((code & (1u8 << 0u8)) > 0),
                Boolean::new((code & (1u8 << 1u8)) > 0),
                Boolean::new((code & (1u8 << 2u8)) > 0),
                Boolean::new((code & (1u8 << 3u8)) > 0),
                Boolean::new((code & (1u8 << 4u8)) > 0),
                Boolean::new((code & (1u8 << 5u8)) > 0),
                Boolean::new((code & (1u8 << 6u8)) > 0),
                Boolean::new((code & (1u8 << 7u8)) > 0),
            ],
        }
    }

    /// Draws the eight entries in their order.
    pub fn generate_rng(rng: &mut DeterministicRng) -> (rule: Self) {
        let p0 = Boolean::generate_rng(rng);
        let p1 = Boolean::generate_rng(rng);
        let p2 = Boolean::generate_rng(rng);
        let p3 = Boolean::generate_rng(rng);
        let p4 = Boolean::generate_rng(rng);
        let p5 = Boolean::generate_rng(rng);
        let p6 = Boolean::generate_rng(rng);
        let p7 = Boolean::generate_rng(rng);
        Self { pattern: [p0, p1, p2, p3, p4, p5, p6, p7] }
    }

    /// Flips the entry at `index` and leaves the others.
    pub fn flip_entry(&mut self, index: usize)
        requires
            index < 8,
        ensures
            final(self).pattern@[index as int].value == !old(self).pattern@[index as int].value,
            forall|i: int|
                0 <= i < 8 && i != index ==> final(self).pattern@[i] == old(self).pattern@[i],
    {
        let flipped = Boolean::new(!self.pattern[index].into_inner());
        self.pattern[index] = flipped;
    }

    /// With equal chance, draws the whole rule afresh or flips one entry
    /// picked at random.
    pub fn mutate_rng(&mut self, rng: &mut DeterministicRng) {
        if gen_bool(rng) {
            *self = Self::generate_rng(rng);
        } else {
            let index = gen_usize(rng) % 8;
            self.flip_entry(index);
        }
    }
}

/// The shape of the neighbourhood of a cell: a fixed list of offsets.
#[derive(Debug, Clone, Copy, PartialEq, Eq, Structural)]
pub enum PixelNeighbourhood {
    Vertical,
    Horizontal,
    DiagLeft,
    DiagRight,
    Melt,
    BigMelt,
    VonNeumann,
    AntiVonNeumann,
    Cross,
    Moore,
    Spiral,
    Diamond,
    Circle,
    Flower,
    Square,
}

impl PixelNeighbourhood {
    /// The shapes in their fixed order.
    pub open spec fn spec_values() -> Seq<Self> {
        seq![
            PixelNeighbourhood::Vertical,
            PixelNeighbourhood::Horizontal,
            PixelNeighbourhood::DiagLeft,
            PixelNeighbourhood::DiagRight,
            PixelNeighbourhood::Melt,
            PixelNeighbourhood::BigMelt,
            PixelNeighbourhood::VonNeumann,
            PixelNeighbourhood::AntiVonNeumann,
            PixelNeighbourhood::Cross,
            PixelNeighbourhood::Moore,
            PixelNeighbourhood::Spiral,
            PixelNeighbourhood::Diamond,
            PixelNeighbourhood::Circle,
            PixelNeighbourhood::Flower,
            PixelNeighbourhood::Square,
        ]
    }

    /// The offsets of the neighbours, each as a step along the columns and a
    /// step along the rows.
    pub open spec fn spec_offsets(self) -> Seq<(isize, isize)> {
        match self {
            PixelNeighbourhood::Vertical => seq![
                (0isize, -1isize),
                (0isize, 1isize),
            ],
            PixelNeighbourhood::Horizontal => seq![
                (-1isize, 0isize),
                (1isize, 0isize),
            ],
            PixelNeighbourhood::DiagLeft => seq![
                (-1isize, -1isize),
                (1isize, 1isize),
            ],
            PixelNeighbourhood::DiagRight => seq![
                (1isize, -1isize),
                (-1isize, 1isize),
            ],
            PixelNeighbourhood::Melt => seq![
                (-1isize, -1isize),
                (0isize, -1isize),
                (1isize, -1isize),
            ],
            PixelNeighbourhood::BigMelt => seq![
                (-1isize, -1isize),
                (0isize, -1isize),
                (1isize, -1isize),
                (-1isize, -2isize),
                (0isize, -2isize),
                (1isize, -2isize),
            ],
            PixelNeighbourhood::VonNeumann => seq![
                (-1isize, 0isize),
                (1isize, 0isize),
                (0isize, -1isize),
                (0isize, 1isize),
            ],
            PixelNeighbourhood::AntiVonNeumann => seq![
                (-1isize, -1isize),
                (1isize, -1isize),
                (1isize, -1isize),
                (1isize, 1isize),
            ],
            PixelNeighbourhood::Cross => seq![
                (-1isize, 0isize),
                (-2isize, 0isize),
                (1isize, 0isize),
                (2isize, 0isize),
                (0isize, -1isize),
                (0isize, -2isize),
                (0isize, 1isize),
                (0isize, 2isize),
            ],
            PixelNeighbourhood::Moore => seq![
                (-1isize, -1isize),
                (-1isize, 0isize),
                (-1isize, 1isize),
                (0isize, -1isize),
                (0isize, 1isize),
                (1isize, -1isize),
                (1isize, 0isize),
                (1isize, 1isize),
            ],
            PixelNeighbourhood::Spiral => seq![
                (-1isize, 0isize),
                (-2isize, 1isize),
                (1isize, 0isize),
                (2isize, 1isize),
                (0isize, -1isize),
                (1isize, -2isize),
                (0isize, 1isize),
                (1isize, 2isize),
            ],
            PixelNeighbourhood::Diamond => seq![
                (-1isize, -1isize),
                (-2isize, 0isize),
                (-1isize, 1isize),
                (2isize, 0isize),
                (1isize, -1isize),
                (0isize, -2isize),
                (1isize, 1isize),
                (0isize, 2isize),
            ],
            PixelNeighbourhood::Circle => seq![
                (-2isize, -1isize),
                (-2isize, 0isize),
                (-2isize, 1isize),
                (2isize, -1isize),
                (2isize, 0isize),
                (2isize, 1isize),
                (-1isize, -2isize),
                (0isize, -2isize),
                (1isize, -2isize),
                (-1isize, 2isize),
                (0isize, 2isize),
                (1isize, 2isize),
            ],
            PixelNeighbourhood::Flower => seq![
                (-2isize, -1isize),
                (-1isize, 0isize),
                (-2isize, 1isize),
                (2isize, -1isize),
                (1isize, 0isize),
                (2isize, 1isize),
                (-1isize, -2isize),
                (0isize, -1isize),
                (1isize, -2isize),
                (-1isize, 2isize),
                (0isize, 1isize),
                (1isize, 2isize),
            ],
            PixelNeighbourhood::Square => seq![
                (-2isize, -2isize),
                (-2isize, -1isize),
                (-2isize, 0isize),
                (-2isize, 1isize),
                (2isize, -2isize),
                (2isize, -1isize),
                (2isize, 0isize),
                (2isize, 1isize),
                (-2isize, 2isize),
                (-1isize, -2isize),
                (0isize, -2isize),
                (1isize, -2isize),
                (2isize, 2isize),
                (-1isize, 2isize),
                (0isize, 2isize),
                (1isize, 2isize),
            ],
        }
    }

    /// The number of neighbours.
    pub open spec fn spec_count(self) -> nat {
        match self {
            PixelNeighbourhood::Vertical => 2,
            PixelNeighbourhood::Horizontal => 2,
            PixelNeighbourhood::DiagLeft => 2,
            PixelNeighbourhood::DiagRight => 2,
            PixelNeighbourhood::Melt => 3,
            PixelNeighbourhood::BigMelt => 6,
            PixelNeighbourhood::VonNeumann => 4,
            PixelNeighbourhood::AntiVonNeumann => 4,
            PixelNeighbourhood::Cross => 8,
            PixelNeighbourhood::Moore => 8,
            PixelNeighbourhood::Spiral => 8,
            PixelNeighbourhood::Diamond => 8,
            PixelNeighbourhood::Circle => 12,
            PixelNeighbourhood::Flower => 12,
            PixelNeighbourhood::Square => 16,
        }
    }

    /// The offsets of the neighbours, each as a step along the columns and a
    /// step along the rows.
    pub fn offsets(&self) -> (v: Vec<(isize, isize)>)
        ensures
            v@ == self.spec_offsets(),
            v@.len() == self.spec_count(),
    {
        let v = match self {
            PixelNeighbourhood::Vertical => vec![
                (0, -1),
                (0, 1),
            ],
            PixelNeighbourhood::Horizontal => vec![
                (-1, 0),
                (1, 0),
            ],
            PixelNeighbourhood::DiagLeft => vec![
                (-1, -1),
                (1, 1),
            ],
            PixelNeighbourhood::DiagRight => vec![
                (1, -1),
                (-1, 1),
            ],
            PixelNeighbourhood::Melt => vec![
                (-1, -1),
                (0, -1),
                (1, -1),
            ],
            PixelNeighbourhood::BigMelt => vec![
                (-1, -1),
                (0, -1),
                (1, -1),
                (-1, -2),
                (0, -2),
                (1, -2),
            ],
            PixelNeighbourhood::VonNeumann => vec![
                (-1, 0),
                (1, 0),
                (0, -1),
                (0, 1),
            ],
            PixelNeighbourhood::AntiVonNeumann => vec![
                (-1, -1),
                (1, -1),
                (1, -1),
                (1, 1),
            ],
            PixelNeighbourhood::Cross => vec![
                (-1, 0),
                (-2, 0),
                (1, 0),
                (2, 0),
                (0, -1),
                (0, -2),
                (0, 1),
                (0, 2),
            ],
            PixelNeighbourhood::Moore => vec![
                (-1, -1),
                (-1, 0),
                (-1, 1),
                (0, -1),
                (0, 1),
                (1, -1),
                (1, 0),
                (1, 1),
            ],
            PixelNeighbourhood::Spiral => vec![
                (-1, 0),
                (-2, 1),
                (1, 0),
                (2, 1),
                (0, -1),
                (1, -2),
                (0, 1),
                (1, 2),
            ],
            PixelNeighbourhood::Diamond => vec![
                (-1, -1),
                (-2, 0),
                (-1, 1),
                (2, 0),
                (1, -1),
                (0, -2),
                (1, 1),
                (0, 2),
            ],
            PixelNeighbourhood::Circle => vec![
                (-2, -1),
                (-2, 0),
                (-2, 1),
                (2, -1),
                (2, 0),
                (2, 1),
                (-1, -2),
                (0, -2),
                (1, -2),
                (-1, 2),
                (0, 2),
                (1, 2),
            ],
            PixelNeighbourhood::Flower => vec![
                (-2, -1),
                (-1, 0),
                (-2, 1),
                (2, -1),
                (1, 0),
                (2, 1),
                (-1, -2),
                (0, -1),
                (1, -2),
                (-1, 2),
                (0, 1),
                (1, 2),
            ],
            PixelNeighbourhood::Square => vec![
                (-2, -2),
                (-2, -1),
                (-2, 0),
                (-2, 1),
                (2, -2),
                (2, -1),
                (2, 0),
                (2, 1),
                (-2, 2),
                (-1, -2),
                (0, -2),
                (1, -2),
                (2, 2),
                (-1, 2),
                (0, 2),
                (1, 2),
            ],
        };
        assert(v@ =~= self.spec_offsets());
        v
    }

    /// The number of neighbours.
    pub fn count(&self) -> (n: usize)
        ensures
            n == self.spec_count(),
            n == self.spec_offsets().len(),
            2 <= n <= 16,
    {
        match self {
            PixelNeighbourhood::Vertical => 2,
            PixelNeighbourhood::Horizontal => 2,
            PixelNeighbourhood::DiagLeft => 2,
            PixelNeighbourhood::DiagRight => 2,
            PixelNeighbourhood::Melt => 3,
            PixelNeighbourhood::BigMelt => 6,
            PixelNeighbourhood::VonNeumann => 4,
            PixelNeighbourhood::AntiVonNeumann => 4,
            PixelNeighbourhood::Cross => 8,
            PixelNeighbourhood::Moore => 8,
            PixelNeighbourhood::Spiral => 8,
            PixelNeighbourhood::Diamond => 8,
            PixelNeighbourhood::Circle => 12,
            PixelNeighbourhood::Flower => 12,
            PixelNeighbourhood::Square => 16,
        }
    }

    /// The shape at the given place of the fixed order.
    pub fn from_index(index: u8) -> (r: Self)
        requires
            index < 15,
        ensures
            r == Self::spec_values()[index as int],
    {
        if index == 0 {
            PixelNeighbourhood::Vertical
        } else if index == 1 {
            PixelNeighbourhood::Horizontal
        } else if index == 2 {
            PixelNeighbourhood::DiagLeft
        } else if index == 3 {
            PixelNeighbourhood::DiagRight
        } else if index == 4 {
            PixelNeighbourhood::Melt
        } else if index == 5 {
            PixelNeighbourhood::BigMelt
        } else if index == 6 {
            PixelNeighbourhood::VonNeumann
        } else if index == 7 {
            PixelNeighbourhood::AntiVonNeumann
        } else if index == 8 {
            PixelNeighbourhood::Cross
        } else if index == 9 {
            PixelNeighbourhood::Moore
        } else if index == 10 {
            PixelNeighbourhood::Spiral
        } else if index == 11 {
            PixelNeighbourhood::Diamond
        } else if index == 12 {
            PixelNeighbourhood::Circle
        } else if index == 13 {
            PixelNeighbourhood::Flower
        } else {
            PixelNeighbourhood::Square
        }
    }

    /// Draws one of the shapes.
    pub fn generate_rng(rng: &mut DeterministicRng) -> (r: Self) {
        Self::from_index(gen_range_u8(rng, 0, 15))
    }
}

/// A cube of bit colours, indexed by three neighbour counts. It is an
/// `ndarray::Array3`, whose inside is not looked at: what it holds is known
/// through `table_cells` alone.
#[verifier::external_body]
pub struct TruthTable {
    cells: ndarray::Array3<BitColor>,
}

/// What a truth table holds: for each first index the rows, for each second
/// index the cells.
pub uninterp spec fn table_cells(t: TruthTable) -> Seq<Seq<Seq<BitColor>>>;

/// Whether `cells` has `n` entries along each of its three axes.
pub open spec fn is_cube(cells: Seq<Seq<Seq<BitColor>>>, n: nat) -> bool {
    &&& cells.len() == n
    &&& forall|r: int| 0 <= r < n ==> (#[trigger] cells[r]).len() == n
    &&& forall|r: int, g: int| 0 <= r < n && 0 <= g < n ==> (#[trigger] cells[r][g]).len() == n
}

/// `cells` with the entry at `(r, g, b)` replaced by `color`.
pub open spec fn with_entry(
    cells: Seq<Seq<Seq<BitColor>>>,
    r: int,
    g: int,
    b: int,
    color: BitColor,
) -> Seq<Seq<Seq<BitColor>>> {
    cells.update(r, cells[r].update(g, cells[r][g].update(b, color)))
}

/// Calls `ndarray::Array3::from_shape_fn` with the shape `(n, n, n)` and a
/// closure that draws each colour. The call panics if the number of cells
/// overflows `isize`; otherwise the array has the shape asked for. Nothing
/// is claimed of the colours.
#[verifier::external_body]
fn table_from_rng(rng: &mut DeterministicRng, n: usize) -> (t: TruthTable)
    requires
        n * n * n <= isize::MAX,
    ensures
        is_cube(table_cells(t), n as nat),
{
    TruthTable { cells: ndarray::Array3::from_shape_fn((n, n, n), |_| BitColor::random(rng)) }
}

/// Calls `ndarray::Array3::from_elem` with the shape `(n, n, n)`. The call
/// panics if the number of cells overflows `isize`; otherwise the array has
/// the shape asked for and every cell holds the colour.
#[verifier::external_body]
fn table_filled(n: usize, color: BitColor) -> (t: TruthTable)
    requires
        n * n * n <= isize::MAX,
    ensures
        is_cube(table_cells(t), n as nat),
        forall|r: int, g: int, b: int|
            0 <= r < n && 0 <= g < n && 0 <= b < n ==> #[trigger] table_cells(t)[r][g][b] == color,
{
    TruthTable { cells: ndarray::Array3::from_elem((n, n, n), color) }
}

/// Indexes `ndarray::Array3` with `[r, g, b]`, which panics outside the
/// shape and otherwise yields the element at that place.
#[verifier::external_body]
fn table_get(t: &TruthTable, r: usize, g: usize, b: usize) -> (color: BitColor)
    requires
        r < table_cells(*t).len(),
        g < table_cells(*t)[r as int].len(),
        b < table_cells(*t)[r as int][g as int].len(),
    ensures
        color == table_cells(*t)[r as int][g as int][b as int],
{
    t.cells[[r, g, b]]
}

/// Assigns through the mutable index `[r, g, b]` of `ndarray::Array3`, which
/// panics outside the shape and otherwise replaces the element at that place
/// and no other.
#[verifier::external_body]
fn table_set(t: &mut TruthTable, r: usize, g: usize, b: usize, color: BitColor)
    requires
        r < table_cells(*old(t)).len(),
        g < table_cells(*old(t))[r as int].len(),
        b < table_cells(*old(t))[r as int][g as int].len(),
    ensures
        table_cells(*final(t)) == with_entry(
            table_cells(*old(t)),
            r as int,
            g as int,
            b as int,
            color,
        ),
{
    t.cells[[r, g, b]] = color;
}

/// A rule that maps the numbers of neighbours with the red, the green and
/// the blue channel to the next colour of the cell.
pub struct NeighbourCountAutomataRule {
    pub neighbourhood: PixelNeighbourhood,
    pub truth_table: TruthTable,
}

impl NeighbourCountAutomataRule {
    /// The colours of the table, indexed by the three neighbour counts.
    pub open spec fn cells(self) -> Seq<Seq<Seq<BitColor>>> {
        table_cells(self.truth_table)
    }

    /// The invariant of the rule: along each axis the table has one entry
    /// for each number of neighbours from none to all.
    pub open spec fn wf(self) -> bool {
        is_cube(self.cells(), self.neighbourhood.spec_count() + 1)
    }

    /// The rule over the given neighbourhood that maps every combination of
    /// counts to the same colour.
    pub fn filled(neighbourhood: PixelNeighbourhood, color: BitColor) -> (rule: Self)
        ensures
            rule.wf(),
            rule.neighbourhood == neighbourhood,
            forall|r: int, g: int, b: int|
                0 <= r <= neighbourhood.spec_count() && 0 <= g <= neighbourhood.spec_count() && 0
                    <= b <= neighbourhood.spec_count() ==> #[trigger] rule.cells()[r][g][b]
                    == color,
    {
        let n = neighbourhood.count() + 1;
        assert(n * n * n <= 17 * 17 * 17) by (nonlinear_arith)
            requires
                0 <= n <= 17,
        ;
        Self { neighbourhood, truth_table: table_filled(n, color) }
    }

    /// Draws a neighbourhood and then a colour for each entry of the table.
    pub fn generate_rng(rng: &mut DeterministicRng) -> (rule: Self)
        ensures
            rule.wf(),
    {
        let neighbourhood = PixelNeighbourhood::generate_rng(rng);
        let n = neighbourhood.count() + 1;
        assert(n * n * n <= 17 * 17 * 17) by (nonlinear_arith)
            requires
                0 <= n <= 17,
        ;
        Self { neighbourhood, truth_table: table_from_rng(rng, n) }
    }

    /// The next colour for the given numbers of neighbours with the red, the
    /// green and the blue channel.
    pub fn lookup(&self, reds: usize, greens: usize, blues: usize) -> (color: BitColor)
        requires
            self.wf(),
            reds <= self.neighbourhood.spec_count(),
            greens <= self.neighbourhood.spec_count(),
            blues <= self.neighbourhood.spec_count(),
        ensures
            color == self.cells()[reds as int][greens as int][blues as int],
    {
        table_get(&self.truth_table, reds, greens, blues)
    }

    /// Replaces one entry of the table and leaves the others.
    pub fn set_entry(&mut self, reds: usize, greens: usize, blues: usize, color: BitColor)
        requires
            old(self).wf(),
            reds <= old(self).neighbourhood.spec_count(),
            greens <= old(self).neighbourhood.spec_count(),
            blues <= old(self).neighbourhood.spec_count(),
        ensures
            final(self).wf(),
            final(self).neighbourhood == old(self).neighbourhood,
            final(self).cells() == with_entry(
                old(self).cells(),
                reds as int,
                greens as int,
                blues as int,
                color,
            ),
    {
        table_set(&mut self.truth_table, reds, greens, blues, color);
    }

    /// Draws a colour afresh for one entry picked at random.
    pub fn mutate_entry_rng(&mut self, rng: &mut DeterministicRng)
        requires
            old(self).wf(),
        ensures
            final(self).wf(),
            final(self).neighbourhood == old(self).neighbourhood,
            exists|r: int, g: int, b: int, color: BitColor|
                0 <= r <= old(self).neighbourhood.spec_count() && 0 <= g <= old(
                    self,
                ).neighbourhood.spec_count() && 0 <= b <= old(self).neighbourhood.spec_count()
                    && final(self).cells() == with_entry(old(self).cells(), r, g, b, color),
    {
        let n = self.neighbourhood.count() + 1;
        let index_r = gen_usize(rng) % n;
        let index_g = gen_usize(rng) % n;
        let index_b = gen_usize(rng) % n;
        let color = BitColor::random(rng);
        self.set_entry(index_r, index_g, index_b, color);
        assert(self.cells() == with_entry(
            old(self).cells(),
            index_r as int,
            index_g as int,
            index_b as int,
            color,
        ));
    }

    /// With equal chance, draws the whole rule afresh or draws a colour
    /// afresh for one entry picked at random.
    pub fn mutate_rng(&mut self, rng: &mut DeterministicRng)
        requires
            old(self).wf(),
        ensures
            final(self).wf(),
    {
        if gen_bool(rng) {
            *self = Self::generate_rng(rng);
        } else {
            self.mutate_entry_rng(rng);
        }
    }
}

/// Whether a cell is born and whether it survives, for one number of
/// neighbours.
#[derive(Debug, Clone, Copy)]
pub struct LifeLikeTable {
    pub birth: Boolean,
    pub survival: Boolean,
}

impl LifeLikeTable {
    /// Whether the cell has the colour next: a cell that has it survives or
    /// not, a cell that has it not is born or not.
    pub open spec fn spec_next_state(self, alive: bool) -> bool {
        if alive {
            self.survival.value
        } else {
            self.birth.value
        }
    }

    /// Whether the cell has the colour next.
    pub fn next_state(&self, alive: bool) -> (r: bool)
        ensures
            r == self.spec_next_state(alive),
    {
        if alive {
            self.survival.into_inner()
        } else {
            self.birth.into_inner()
        }
    }

    /// Draws the birth flag and then the survival flag.
    pub fn generate_rng(rng: &mut DeterministicRng) -> (r: Self) {
        let birth = Boolean::generate_rng(rng);
        let survival = Boolean::generate_rng(rng);
        Self { birth, survival }
    }

    /// The table after one mutation step: choice 0 takes the freshly drawn
    /// table, choice 1 puts `flag` in the place of the birth flag, choice 2
    /// puts it in the place of the survival flag.
    pub fn mutated(self, choice: u8, fresh: Self, flag: Boolean) -> (r: Self)
        requires
            choice < 3,
        ensures
            choice == 0 ==> r == fresh,
            choice == 1 ==> r.birth == flag && r.survival == self.survival,
            choice == 2 ==> r.birth == self.birth && r.survival == flag,
    {
        if choice == 0 {
            fresh
        } else if choice == 1 {
            Self { birth: flag, survival: self.survival }
        } else {
            Self { birth: self.birth, survival: flag }
        }
    }

    /// With equal chance, draws both flags afresh or mutates one flag picked
    /// at random.
    pub fn mutate_rng(&mut self, rng: &mut DeterministicRng) {
        if gen_bool(rng) {
            let fresh = Self::generate_rng(rng);
            *self = self.mutated(0, fresh, self.birth);
        } else if gen_bool(rng) {
            let mut birth = self.birth;
            birth.mutate_rng(rng);
            *self = self.mutated(1, *self, birth);
        } else {
            let mut survival = self.survival;
            survival.mutate_rng(rng);
            *self = self.mutated(2, *self, survival);
        }
    }
}

/// The life-like rule of one colour: a birth and survival table for each
/// number of neighbours of that colour, from none to all.
#[derive(Debug)]
pub struct IndivAutomataRule {
    pub neighbourhood: PixelNeighbourhood,
    pub rules: Vec<LifeLikeTable>,
}

impl Clone for IndivAutomataRule {
    /// A rule with the same neighbourhood and the same tables.
    fn clone(&self) -> (other: Self)
        ensures
            other.neighbourhood == self.neighbourhood,
            other.rules@ == self.rules@,
    {
        let mut rules: Vec<LifeLikeTable> = Vec::new();
        let mut i: usize = 0;
        while i < self.rules.len()
            invariant
                i <= self.rules@.len(),
                rules@ == self.rules@.take(i as int),
            decreases self.rules@.len() - i,
        {
            rules.push(self.rules[i]);
            i += 1;
            assert(rules@ =~= self.rules@.take(i as int));
        }
        assert(self.rules@.take(self.rules@.len() as int) =~= self.rules@);
        IndivAutomataRule { neighbourhood: self.neighbourhood, rules }
    }
}

impl IndivAutomataRule {
    /// The invariant of the rule: there is one table for each number of
    /// neighbours from none to all.
    pub open spec fn wf(self) -> bool {
        self.rules@.len() == self.neighbourhood.spec_count() + 1
    }

    /// Whether the colour is on next in a cell that has it now or not, with
    /// `count` neighbours of the colour.
    pub open spec fn spec_fires(self, alive: bool, count: int) -> bool {
        self.rules@[count].spec_next_state(alive)
    }

    /// Whether there is one table for each number of neighbours from none
    /// to all.
    pub fn is_well_formed(&self) -> (r: bool)
        ensures
            r == self.wf(),
    {
        self.rules.len() == self.neighbourhood.count() + 1
    }

    /// Whether the colour is on next in a cell that has it now or not, with
    /// `count` neighbours of the colour.
    pub fn fires(&self, alive: bool, count: usize) -> (r: bool)
        requires
            self.wf(),
            count <= self.neighbourhood.spec_count(),
        ensures
            r == self.spec_fires(alive, count as int),
    {
        self.rules[count].next_state(alive)
    }

    /// Draws a neighbourhood and then one table for each number of
    /// neighbours.
    pub fn generate_rng(rng: &mut DeterministicRng) -> (rule: Self)
        ensures
            rule.wf(),
    {
        let neighbourhood = PixelNeighbourhood::generate_rng(rng);
        let n = neighbourhood.count();
        let mut rules: Vec<LifeLikeTable> = Vec::new();
        let mut i: usize = 0;
        while i <= n
            invariant
                i <= n + 1,
                n <= 16,
                rules@.len() == i,
            decreases n + 1 - i,
        {
            rules.push(LifeLikeTable::generate_rng(rng));
            i += 1;
        }
        Self { neighbourhood, rules }
    }

    /// Puts `table` in the place of the table for `index` neighbours and
    /// leaves the others.
    pub fn set_table(&mut self, index: usize, table: LifeLikeTable)
        requires
            old(self).wf(),
            index <= old(self).neighbourhood.spec_count(),
        ensures
            final(self).wf(),
            final(self).neighbourhood == old(self).neighbourhood,
            final(self).rules@ == old(self).rules@.update(index as int, table),
    {
        self.rules.set(index, table);
    }

    /// With equal chance, draws the whole rule afresh or mutates one table
    /// picked at random among all of them.
    pub fn mutate_rng(&mut self, rng: &mut DeterministicRng)
        requires
            old(self).wf(),
        ensures
            final(self).wf(),
    {
        if gen_bool(rng) {
            *self = Self::generate_rng(rng);
        } else {
            let index = gen_usize(rng) % self.rules.len();
            let mut table = self.rules[index];
            table.mutate_rng(rng);
            self.set_table(index, table);
        }
    }
}

/// Whether the order has eight places and holds every colour, and so each
/// colour once.
pub open spec fn orders_every_color(order: Seq<BitColor>) -> bool {
    order.len() == 8 && forall|c: BitColor| #[trigger] order.contains(c)
}

/// Life-like rules for the eight bit colours, with the order in which the
/// colours are tried.
#[derive(Debug, Clone)]
pub struct LifeLikeAutomataRule {
    pub color_order: [BitColor; 8],
    /// The rule of each colour, at the index of the colour.
    pub color_rules: [IndivAutomataRule; 8],
}

impl LifeLikeAutomataRule {
    /// The invariant of the rule set: the order holds every colour, and so
    /// each of the eight colours once, and the rule of each colour is well
    /// formed.
    pub open spec fn wf(self) -> bool {
        &&& orders_every_color(self.color_order@)
        &&& forall|i: int| 0 <= i < 8 ==> (#[trigger] self.color_rules@[i]).wf()
    }

    /// Whether the order holds every colour and the rule of each colour is
    /// well formed.
    pub fn is_well_formed(&self) -> (r: bool)
        ensures
            r == self.wf(),
    {
        let mut i: usize = 0;
        while i < 8
            invariant
                i <= 8,
                forall|j: int| 0 <= j < i ==> (#[trigger] self.color_rules@[j]).wf(),
            decreases 8 - i,
        {
            if !self.color_rules[i].is_well_formed() {
                return false;
            }
            i += 1;
        }
        let mut seen: [bool; 8] = [false, false, false, false, false, false, false, false];
        let mut place: usize = 0;
        while place < 8
            invariant
                place <= 8,
                forall|k: int|
                    0 <= k < 8 ==> (#[trigger] seen@[k] <==> exists|p: int|
                        0 <= p < place && (#[trigger] self.color_order@[p]).spec_index() == k),
            decreases 8 - place,
        {
            let ghost before = seen@;
            let index = self.color_order[place].to_index();
            seen[index] = true;
            proof {
                assert forall|k: int| 0 <= k < 8 implies (#[trigger] seen@[k] <==> exists|p: int|
                    0 <= p < place + 1 && (#[trigger] self.color_order@[p]).spec_index() == k) by {
                    if k == index {
                        assert(self.color_order@[place as int].spec_index() == k);
                    } else {
                        assert(seen@[k] == before[k]);
                        if before[k] {
                            let p = choose|p: int|
                                0 <= p < place && (#[trigger] self.color_order@[p]).spec_index()
                                    == k;
                            assert(self.color_order@[p].spec_index() == k);
                        }
                    }
                }
            }
            place += 1;
        }
        let all = seen[0] && seen[1] && seen[2] && seen[3] && seen[4] && seen[5] && seen[6]
            && seen[7];
        proof {
            let order = self.color_order@;
            if all {
                assert forall|c: BitColor| #[trigger] order.contains(c) by {
                    let k = c.spec_index();
                    assert(seen@[k]);
                    let p = choose|p: int|
                        0 <= p < 8 && (#[trigger] order[p]).spec_index() == k;
                    assert(order[p] == c);
                }
            } else {
                let k = choose|k: int| 0 <= k < 8 && !seen@[k];
                let c = BitColor::spec_values()[k];
                assert(c.spec_index() == k);
                if order.contains(c) {
                    let p = choose|p: int| 0 <= p < order.len() && order[p] == c;
                    assert(order[p].spec_index() == k);
                }
            }
        }
        all
    }

    /// Whether the neighbour counts fit the neighbourhoods: for each colour,
    /// the count is at most the number of neighbours of its rule.
    pub open spec fn counts_fit(self, counts: Seq<usize>) -> bool {
        &&& counts.len() == 8
        &&& forall|i: int|
            0 <= i < 8 ==> counts[i] <= (#[trigger] self.color_rules@[i]).neighbourhood.spec_count()
    }

    /// Whether the rule of `color` turns the colour on in a cell that is
    /// `current` now, given for each colour the number of neighbours of it.
    pub open spec fn spec_fires(self, current: BitColor, counts: Seq<usize>, color: BitColor) -> bool {
        self.color_rules@[color.spec_index()].spec_fires(
            current == color,
            counts[color.spec_index()] as int,
        )
    }

    /// The first colour at or after place `from` of the order whose rule
    /// fires, if there is one.
    pub open spec fn spec_first_firing(
        self,
        current: BitColor,
        counts: Seq<usize>,
        from: int,
    ) -> Option<BitColor>
        decreases 8 - from,
    {
        if from < 0 || from >= 8 {
            None
        } else if self.spec_fires(current, counts, self.color_order@[from]) {
            Some(self.color_order@[from])
        } else {
            self.spec_first_firing(current, counts, from + 1)
        }
    }

    /// The next colour of a cell: the colours are tried in the order of the
    /// rule set and the first whose rule fires wins. Where no rule fires
    /// there is no next colour.
    pub fn evaluate(&self, current: BitColor, counts: &[usize; 8]) -> (next: Option<BitColor>)
        requires
            self.wf(),
            self.counts_fit(counts@),
        ensures
            next == self.spec_first_firing(current, counts@, 0),
    {
        let mut place: usize = 0;
        while place < 8
            invariant
                place <= 8,
                self.wf(),
                self.counts_fit(counts@),
                self.spec_first_firing(current, counts@, 0) == self.spec_first_firing(
                    current,
                    counts@,
                    place as int,
                ),
            decreases 8 - place,
        {
            let color = self.color_order[place];
            let index = color.to_index();
            if self.color_rules[index].fires(current == color, counts[index]) {
                return Some(color);
            }
            place += 1;
        }
        None
    }

    /// Shuffles the eight colours into an order and draws a rule for each
    /// colour.
    pub fn generate_rng(rng: &mut DeterministicRng) -> (rule: Self)
        ensures
            rule.wf(),
    {
        let mut color_order = BitColor::values();
        shuffle_colors(rng, &mut color_order);
        proof {
            let values = BitColor::spec_values();
            let order = color_order@;
            values.to_multiset_ensures();
            order.to_multiset_ensures();
            assert forall|c: BitColor| #[trigger] order.contains(c) by {
                assert(values[c.spec_index()] == c);
                assert(values.contains(c));
                assert(values.to_multiset().count(c) > 0);
                assert(order.to_multiset().count(c) > 0);
            }
        }
        let r0 = IndivAutomataRule::generate_rng(rng);
        let r1 = IndivAutomataRule::generate_rng(rng);
        let r2 = IndivAutomataRule::generate_rng(rng);
        let r3 = IndivAutomataRule::generate_rng(rng);
        let r4 = IndivAutomataRule::generate_rng(rng);
        let r5 = IndivAutomataRule::generate_rng(rng);
        let r6 = IndivAutomataRule::generate_rng(rng);
        let r7 = IndivAutomataRule::generate_rng(rng);
        Self { color_order, color_rules: [r0, r1, r2, r3, r4, r5, r6, r7] }
    }

    /// Puts `rule` in the place of the rule of the colour with the given
    /// index and leaves the order and the other rules.
    pub fn set_color_rule(&mut self, index: usize, rule: IndivAutomataRule)
        requires
            old(self).wf(),
            rule.wf(),
            index < 8,
        ensures
            final(self).wf(),
            final(self).color_order == old(self).color_order,
            final(self).color_rules@ == old(self).color_rules@.update(index as int, rule),
    {
        self.color_rules[index] = rule;
        assert(self.color_rules@ =~= old(self).color_rules@.update(index as int, rule));
    }

    /// With equal chance, draws the whole rule set afresh or mutates the
    /// rule of one colour picked at random.
    pub fn mutate_rng(&mut self, rng: &mut DeterministicRng)
        requires
            old(self).wf(),
        ensures
            final(self).wf(),
    {
        if gen_bool(rng) {
            *self = Self::generate_rng(rng);
        } else {
            let index = gen_usize(rng) % 8;
            let mut rule = self.color_rules[index].clone();
            rule.mutate_rng(rng);
            self.set_color_rule(index, rule);
        }
    }
}

} // verus!

//! The bookkeeping of Poisson-disk sampling: which points are placed, which
//! are still active, and which placed point each cell of the acceleration
//! grid holds. The caller draws the random numbers and measures the
//! distances; the sampler decides what happens next.

use vstd::prelude::*;

verus! {

/// How many candidates are tried around one active point before the point is
/// retired.
pub const MAX_ATTEMPTS: usize = 30;

/// The largest number of points that can be asked for: a cell holds the
/// number of a point in sixteen bits.
pub const MAX_POINTS: usize = 65536;

/// The largest side of the grid.
pub const MAX_GRID_SIZE: usize = 32767;

/// A square table that holds, for each cell, the number of the placed point
/// registered there, if any. It is an `ndarray::Array2`, whose inside is not
/// looked at: what it holds is known through `grid_cells` alone.
#[verifier::external_body]
pub struct CellGrid {
    cells: ndarray::Array2<Option<u16>>,
}

/// What a cell grid holds: for each first index the cells along the second.
pub uninterp spec fn grid_cells(g: CellGrid) -> Seq<Seq<Option<u16>>>;

/// Whether `cells` has `n` entries along both of its axes.
pub open spec fn is_square(cells: Seq<Seq<Option<u16>>>, n: nat) -> bool {
    &&& cells.len() == n
    &&& forall|x: int| 0 <= x < n ==> (#[trigger] cells[x]).len() == n
}

/// Calls `ndarray::Array2::from_elem` with the shape `(size, size)` and no
/// point as the element. The call panics if the number of cells overflows
/// `isize`; otherwise the array has the shape asked for and every cell holds
/// the element.
#[verifier::external_body]
fn grid_filled(size: usize) -> (g: CellGrid)
    requires
        size * size <= isize::MAX,
    ensures
        is_square(grid_cells(g), size as nat),
        forall|x: int, y: int|
            0 <= x < size && 0 <= y < size ==> (#[trigger] grid_cells(g)[x][y]) is None,
{
    CellGrid { cells: ndarray::Array2::from_elem((size, size), None) }
}

/// Indexes `ndarray::Array2` with `[x, y]`, which panics outside the shape
/// and otherwise yields the element at that place.
#[verifier::external_body]
fn grid_get(g: &CellGrid, x: usize, y: usize) -> (v: Option<u16>)
    requires
        x < grid_cells(*g).len(),
        y < grid_cells(*g)[x as int].len(),
    ensures
        v == grid_cells(*g)[x as int][y as int],
{
    g.cells[[x, y]]
}

/// Assigns through the mutable index `[x, y]` of `ndarray::Array2`, which
/// panics outside the shape and otherwise replaces the element at that place
/// and no other.
#[verifier::external_body]
fn grid_set(g: &mut CellGrid, x: usize, y: usize, v: Option<u16>)
    requires
        x < grid_cells(*old(g)).len(),
        y < grid_cells(*old(g))[x as int].len(),
    ensures
        grid_cells(*final(g)) == grid_cells(*old(g)).update(
            x as int,
            grid_cells(*old(g))[x as int].update(y as int, v),
        ),
{
    g.cells[[x, y]] = v;
}

/// What the caller reports to the sampler.
#[derive(Clone, Copy, Debug)]
pub enum PoissonEvent {
    /// A place of the active list was drawn.
    Picked { active_index: usize },
    /// The candidate lies too close to a placed point.
    Rejected,
    /// The candidate lies far enough from every placed point nearby; it
    /// falls into `cell` of the grid.
    Accepted { cell: (usize, usize) },
}

/// What the sampler asks the caller to do next.
#[derive(Clone, Copy, Debug, PartialEq, Eq, Structural)]
pub enum PoissonAction {
    /// Draw a place of the active list below `active_len`.
    Pick { active_len: usize },
    /// Propose a candidate around the placed point with the number `parent`.
    Propose { parent: usize },
    /// The sampling has ended.
    Finish,
}

/// The state of a sampling as plain values.
pub struct SamplerModel {
    /// For each cell, the number of the placed point registered there.
    pub grid: Seq<Seq<Option<u16>>>,
    /// The numbers of the points around which candidates are still tried.
    pub active: Seq<usize>,
    /// How many points are placed.
    pub placed: nat,
    /// How many points were asked for.
    pub count: nat,
    /// While candidates are tried around an active point: its place in the
    /// active list and the number of candidates proposed so far.
    pub round: Option<(usize, usize)>,
}

/// `v` brought into `0 .. size`.
pub open spec fn clamp_index(v: int, size: int) -> int {
    if v < 0 {
        0
    } else if v > size - 1 {
        size - 1
    } else {
        v
    }
}

impl SamplerModel {
    /// The side of the grid.
    pub open spec fn grid_size(self) -> nat {
        self.grid.len()
    }

    /// Whether `cell` lies in the grid.
    pub open spec fn in_grid(self, cell: (usize, usize)) -> bool {
        cell.0 < self.grid_size() && cell.1 < self.grid_size()
    }

    /// The invariant of the state: the grid is square, every number in the
    /// grid and in the active list is that of a placed point, at least one
    /// point is placed and never more than were asked for, and candidates are
    /// tried only while points are missing.
    pub open spec fn wf(self) -> bool {
        &&& 1 <= self.grid_size() <= MAX_GRID_SIZE
        &&& is_square(self.grid, self.grid_size())
        &&& forall|x: int, y: int|
            0 <= x < self.grid_size() && 0 <= y < self.grid_size() ==> (
            #[trigger] self.grid[x][y] matches Some(i) ==> i < self.placed)
        &&& forall|k: int| 0 <= k < self.active.len() ==> #[trigger] self.active[k] < self.placed
        &&& 1 <= self.placed <= self.count <= MAX_POINTS
        &&& self.round matches Some((active_index, attempts)) ==> {
            &&& active_index < self.active.len()
            &&& 1 <= attempts <= MAX_ATTEMPTS
            &&& self.placed < self.count
        }
    }

    /// The state after the first point was placed in `first_cell`.
    pub open spec fn initial(count: nat, grid_size: nat, first_cell: (usize, usize)) -> Self {
        SamplerModel {
            grid: Seq::new(
                grid_size,
                |x: int|
                    Seq::new(
                        grid_size,
                        |y: int|
                            if x == first_cell.0 && y == first_cell.1 {
                                Some(0u16)
                            } else {
                                None
                            },
                    ),
            ),
            active: seq![0usize],
            placed: 1,
            count,
            round: None,
        }
    }

    /// Whether points are missing and candidates can still be tried.
    pub open spec fn running(self) -> bool {
        self.placed < self.count && self.active.len() > 0
    }

    /// What the caller is to do in this state.
    pub open spec fn next_action(self) -> PoissonAction {
        match self.round {
            Some((active_index, _)) => PoissonAction::Propose {
                parent: self.active[active_index as int],
            },
            None => if self.running() {
                PoissonAction::Pick { active_len: self.active.len() as usize }
            } else {
                PoissonAction::Finish
            },
        }
    }

    /// Whether the event answers what the state asks for.
    pub open spec fn admits(self, event: PoissonEvent) -> bool {
        match event {
            PoissonEvent::Picked { active_index } => self.round is None && self.running()
                && active_index < self.active.len(),
            PoissonEvent::Rejected => self.round is Some,
            PoissonEvent::Accepted { cell } => self.round is Some && self.in_grid(cell),
        }
    }

    /// The state after the event. A picked point starts a round with its
    /// first candidate. A rejected candidate is followed by another until
    /// the bound is reached; then the point is retired from the active list
    /// and stays placed. An accepted candidate is placed: it gets the next
    /// number, its cell registers that number, and it becomes active.
    pub open spec fn step(self, event: PoissonEvent) -> Self {
        match event {
            PoissonEvent::Picked { active_index } => SamplerModel {
                round: Some((active_index, 1usize)),
                ..self
            },
            PoissonEvent::Rejected => {
                let (active_index, attempts) = self.round->0;
                if attempts < MAX_ATTEMPTS {
                    SamplerModel { round: Some((active_index, (attempts + 1) as usize)), ..self }
                } else {
                    SamplerModel {
                        active: self.active.remove(active_index as int),
                        round: None,
                        ..self
                    }
                }
            },
            PoissonEvent::Accepted { cell } => SamplerModel {
                grid: self.grid.update(
                    cell.0 as int,
                    self.grid[cell.0 as int].update(cell.1 as int, Some(self.placed as u16)),
                ),
                active: self.active.push(self.placed as usize),
                placed: self.placed + 1,
                round: None,
                ..self
            },
        }
    }

    /// The cells around `cell` in the order in which they are scanned: the
    /// cell itself and its eight neighbours, brought into the grid at its
    /// border, so that a cell at the border is scanned more than once.
    pub open spec fn scanned(self, cell: (usize, usize)) -> Seq<Option<u16>> {
        Seq::new(
            9,
            |k: int|
                self.grid[clamp_index(cell.0 + k / 3 - 1, self.grid_size() as int)][clamp_index(
                    cell.1 + k % 3 - 1,
                    self.grid_size() as int,
                )],
        )
    }

    /// Every state that an admitted event leads to is well formed: in
    /// particular, never more points are placed than were asked for.
    pub proof fn lemma_step_keeps_wf(self, event: PoissonEvent)
        requires
            self.wf(),
            self.admits(event),
        ensures
            self.step(event).wf(),
            self.step(event).placed <= self.count,
            self.step(event).count == self.count,
            self.step(event).placed >= self.placed,
    {
        let after = self.step(event);
        match event {
            PoissonEvent::Accepted { cell } => {
                assert forall|x: int, y: int|
                    0 <= x < after.grid_size() && 0 <= y < after.grid_size() implies (
                #[trigger] after.grid[x][y] matches Some(i) ==> i < after.placed) by {
                    if x == cell.0 && y == cell.1 {
                    } else {
                        assert(after.grid[x][y] == self.grid[x][y]);
                    }
                }
                assert(is_square(after.grid, after.grid_size()));
            },
            PoissonEvent::Rejected => {},
            PoissonEvent::Picked { .. } => {},
        }
    }
}

/// The bookkeeping of one sampling.
pub struct PoissonSampler {
    grid: CellGrid,
    grid_size: usize,
    active: Vec<usize>,
    placed: usize,
    count: usize,
    round: Option<(usize, usize)>,
}

impl PoissonSampler {
    /// The state of the sampling as plain values. The side of the grid is
    /// not a value of its own: it is the length of the model's grid.
    pub closed spec fn view(self) -> SamplerModel {
        SamplerModel {
            grid: grid_cells(self.grid),
            active: self.active@,
            placed: self.placed as nat,
            count: self.count as nat,
            round: self.round,
        }
    }

    /// The invariant of the sampler: its state is well formed.
    pub closed spec fn wf(self) -> bool {
        self@.wf() && self.grid_size == self@.grid_size()
    }

    /// Every well-formed sampler has placed at least one point and at most
    /// as many as were asked for.
    pub proof fn lemma_placed_bounds(self)
        requires
            self.wf(),
        ensures
            self@.wf(),
            1 <= self@.placed <= self@.count,
    {
    }

    /// Starts a sampling of up to `count` points on a grid of `grid_size`
    /// cells a side, with the first point placed in `first_cell`.
    pub fn new(count: usize, grid_size: usize, first_cell: (usize, usize)) -> (s: Self)
        requires
            1 <= count <= MAX_POINTS,
            1 <= grid_size <= MAX_GRID_SIZE,
            first_cell.0 < grid_size,
            first_cell.1 < grid_size,
        ensures
            s.wf(),
            s@ == SamplerModel::initial(count as nat, grid_size as nat, first_cell),
    {
        assert(grid_size * grid_size <= 32767 * 32767) by (nonlinear_arith)
            requires
                0 <= grid_size <= 32767,
        ;
        let mut grid = grid_filled(grid_size);
        grid_set(&mut grid, first_cell.0, first_cell.1, Some(0));
        let mut active: Vec<usize> = Vec::new();
        active.push(0);
        let s = PoissonSampler { grid, grid_size, active, placed: 1, count, round: None };
        proof {
            let want = SamplerModel::initial(count as nat, grid_size as nat, first_cell);
            assert(s@.grid.len() == want.grid.len());
            assert forall|x: int| 0 <= x < grid_size implies #[trigger] s@.grid[x] == want.grid[x] by {
                assert(s@.grid[x] =~= want.grid[x]);
            }
            assert(s@.grid =~= want.grid);
            assert(s@.active =~= want.active);
        }
        s
    }

    /// How many points are placed.
    pub fn placed(&self) -> (n: usize)
        ensures
            n == self@.placed,
    {
        self.placed
    }

    /// What the caller is to do next.
    pub fn action(&self) -> (a: PoissonAction)
        requires
            self.wf(),
        ensures
            a == self@.next_action(),
    {
        match self.round {
            Some((active_index, _)) => PoissonAction::Propose { parent: self.active[active_index] },
            None => if self.placed < self.count && self.active.len() > 0 {
                PoissonAction::Pick { active_len: self.active.len() }
            } else {
                PoissonAction::Finish
            },
        }
    }

    /// What the cells around `cell` hold, in the order in which they are
    /// scanned. Every number found is that of a placed point.
    pub fn neighbours(&self, cell: (usize, usize)) -> (found: Vec<Option<u16>>)
        requires
            self.wf(),
            self@.in_grid(cell),
        ensures
            found@ == self@.scanned(cell),
            forall|k: int|
                0 <= k < 9 ==> (#[trigger] found@[k] matches Some(i) ==> i < self@.placed),
    {
        let last = self.grid_size - 1;
        let xs: [usize; 3] = [
            if cell.0 == 0 {
                0
            } else {
                cell.0 - 1
            },
            cell.0,
            if cell.0 >= last {
                last
            } else {
                cell.0 + 1
            },
        ];
        let ys: [usize; 3] = [
            if cell.1 == 0 {
                0
            } else {
                cell.1 - 1
            },
            cell.1,
            if cell.1 >= last {
                last
            } else {
                cell.1 + 1
            },
        ];
        let mut found: Vec<Option<u16>> = Vec::new();
        let mut k: usize = 0;
        while k < 9
            invariant
                k <= 9,
                self.wf(),
                self@.in_grid(cell),
                found@.len() == k,
                forall|t: int|
                    0 <= t < 3 ==> #[trigger] xs@[t] == clamp_index(
                        cell.0 + t - 1,
                        self.grid_size as int,
                    ),
                forall|t: int|
                    0 <= t < 3 ==> #[trigger] ys@[t] == clamp_index(
                        cell.1 + t - 1,
                        self.grid_size as int,
                    ),
                forall|j: int| 0 <= j < k ==> #[trigger] found@[j] == self@.scanned(cell)[j],
                forall|j: int|
                    0 <= j < k ==> (#[trigger] found@[j] matches Some(i) ==> i < self@.placed),
            decreases 9 - k,
        {
            let x = xs[k / 3];
            let y = ys[k % 3];
            let v = grid_get(&self.grid, x, y);
            assert(v == self@.grid[x as int][y as int]);
            found.push(v);
            k += 1;
        }
        assert(found@ =~= self@.scanned(cell));
        found
    }

    /// Takes the caller's report and says what is to be done next.
    pub fn step(&mut self, event: PoissonEvent) -> (action: PoissonAction)
        requires
            old(self).wf(),
            old(self)@.admits(event),
        ensures
            final(self).wf(),
            final(self)@ == old(self)@.step(event),
            action == final(self)@.next_action(),
    {
        proof {
            self@.lemma_step_keeps_wf(event);
        }
        match event {
            PoissonEvent::Picked { active_index } => {
                self.round = Some((active_index, 1));
            },
            PoissonEvent::Rejected => {
                match self.round {
                    Some((active_index, attempts)) => {
                        if attempts < MAX_ATTEMPTS {
                            self.round = Some((active_index, attempts + 1));
                        } else {
                            self.active.remove(active_index);
                            self.round = None;
                        }
                    },
                    None => {},
                }
            },
            PoissonEvent::Accepted { cell } => {
                grid_set(&mut self.grid, cell.0, cell.1, Some(self.placed as u16));
                self.active.push(self.placed);
                self.placed = self.placed + 1;
                self.round = None;
            },
        }
        self.action()
    }
}

} // verus!

use vstd::prelude::*;

verus! {

use crate::geometry::{Coordinate, offset_in_range};
use crate::piece::{
    Piece, color_spec, kind_cells_spec, lemma_kind_cells_bounds, lemma_rotate_correct_bounds,
    projectable, world_cell_spec,
};

/// Board width in cells.
pub const WIDTH: usize = 10;

/// Board height in cells.
pub const HEIGHT: usize = 20;

/// Number of cells on the board.
pub const SIZE: usize = WIDTH * HEIGHT;

/// The closed set of cell colors, one per piece kind; their screen meaning
/// belongs to the presentation layer.
#[derive(Clone, Copy, Debug, PartialEq, Eq, Structural)]
pub enum Color {
    Yellow,
    Cyan,
    Purple,
    Orange,
    Blue,
    Green,
    Red,
}

/// The board: WIDTH x HEIGHT cells in row-major order, each either empty
/// or holding the color of the piece locked there.
pub struct Matrix {
    cells: Vec<Option<Color>>,
}

impl View for Matrix {
    type V = Seq<Option<Color>>;

    closed spec fn view(&self) -> Seq<Option<Color>> {
        self.cells@
    }
}

/// Row-major index of world cell `i` of piece `p`.
pub open spec fn world_index_spec(p: Piece, i: int) -> int {
    world_cell_spec(p, i).1 * (WIDTH as int) + world_cell_spec(p, i).0
}

/// The board contents after the first `n` of the four cells of `p` are
/// written with its kind's color.
pub open spec fn placed_prefix_spec(s: Seq<Option<Color>>, p: Piece, n: int) -> Seq<
    Option<Color>,
>
    decreases n,
{
    if n <= 0 {
        s
    } else {
        placed_prefix_spec(s, p, n - 1).update(
            world_index_spec(p, n - 1),
            Some(color_spec(p.kind)),
        )
    }
}

/// The board contents after the four cells of `p` are written with its
/// kind's color.
pub open spec fn placed_spec(s: Seq<Option<Color>>, p: Piece) -> Seq<Option<Color>> {
    placed_prefix_spec(s, p, 4)
}

impl Matrix {
    /// A matrix is well formed when it holds exactly WIDTH * HEIGHT cells.
    pub open spec fn wf(&self) -> bool {
        self@.len() == SIZE
    }

    /// Row-major index of an on-board coordinate.
    pub open spec fn index_spec(c: Coordinate) -> int {
        c.y * WIDTH + c.x
    }

    /// The coordinate lies on the board.
    pub open spec fn on_matrix_spec(c: Coordinate) -> bool {
        c.x < WIDTH && c.y < HEIGHT
    }

    /// The stored value of an on-board cell.
    pub open spec fn cell_spec(&self, c: Coordinate) -> Option<Color> {
        self@[Self::index_spec(c)]
    }

    /// World cell `i` of piece `p` lies on the board and is empty here.
    pub open spec fn world_cell_free(&self, p: Piece, i: int) -> bool {
        let c = world_cell_spec(p, i);
        &&& 0 <= c.0 < WIDTH
        &&& 0 <= c.1 < HEIGHT
        &&& self@[c.1 * (WIDTH as int) + c.0] is None
    }

    /// The piece's four projected cells are all on the board and all empty.
    pub open spec fn placeable_spec(&self, p: Piece) -> bool {
        projectable(p) && forall|i: int| 0 <= i < 4 ==> self.world_cell_free(p, i)
    }

    /// Some projected cell is off the board or occupied, or the piece does
    /// not project onto board coordinates at all.
    pub open spec fn clipping_spec(&self, p: Piece) -> bool {
        !projectable(p) || exists|i: int| 0 <= i < 4 && !(#[trigger] self.world_cell_free(p, i))
    }

    /// The coordinate lies on the board.
    pub fn on_matrix(c: Coordinate) -> (r: bool)
        ensures
            r == Self::on_matrix_spec(c),
    {
        c.x < WIDTH && c.y < HEIGHT
    }

    /// A board with every cell empty.
    pub fn blank() -> (m: Matrix)
        ensures
            m.wf(),
            forall|i: int| 0 <= i < SIZE ==> m@[i] is None,
    {
        let mut cells: Vec<Option<Color>> = Vec::new();
        let mut i: usize = 0;
        while i < SIZE
            invariant
                i <= SIZE,
                cells@.len() == i,
                forall|j: int| 0 <= j < i ==> cells@[j] is None,
            decreases SIZE - i,
        {
            cells.push(None);
            i = i + 1;
        }
        Matrix { cells }
    }

    /// The stored value for an in-bounds coordinate.
    pub fn cell_at(&self, c: Coordinate) -> (r: Option<Color>)
        requires
            self.wf(),
            Self::on_matrix_spec(c),
        ensures
            r == self.cell_spec(c),
    {
        self.cells[c.y * WIDTH + c.x]
    }

    /// Store a value at an in-bounds coordinate.
    pub fn set_cell(&mut self, c: Coordinate, value: Option<Color>)
        requires
            old(self).wf(),
            Self::on_matrix_spec(c),
        ensures
            final(self).wf(),
            final(self)@ == old(self)@.update(Self::index_spec(c), value),
    {
        let i = c.y * WIDTH + c.x;
        self.cells.set(i, value);
    }

    /// True iff the piece's four projected cells are all on the board and
    /// all empty; a piece that does not project is never placeable.
    pub fn is_placeable(&self, piece: &Piece) -> (r: bool)
        requires
            self.wf(),
            offset_in_range(piece.position),
        ensures
            r == self.placeable_spec(*piece),
    {
        match piece.cells() {
            Some(cells) => {
                let mut i: usize = 0;
                while i < 4
                    invariant
                        self.wf(),
                        cells@.len() == 4,
                        projectable(*piece),
                        forall|k: int| 0 <= k < 4 ==> ((#[trigger] cells@[k]).x as int, cells@[k].y
                            as int) == world_cell_spec(*piece, k),
                        i <= 4,
                        forall|k: int| 0 <= k < i ==> self.world_cell_free(*piece, k),
                    decreases 4 - i,
                {
                    let c = cells[i];
                    if !Self::on_matrix(c) {
                        assert(!self.world_cell_free(*piece, i as int));
                        return false;
                    }
                    if self.cell_at(c).is_some() {
                        assert(!self.world_cell_free(*piece, i as int));
                        return false;
                    }
                    i = i + 1;
                }
                true
            }
            None => false,
        }
    }

    /// True iff some projected cell is off the board or occupied, or the
    /// piece does not project at all; the movement validation predicate.
    pub fn is_clipping(&self, piece: &Piece) -> (r: bool)
        requires
            self.wf(),
            offset_in_range(piece.position),
        ensures
            r == self.clipping_spec(*piece),
    {
        match piece.cells() {
            Some(cells) => {
                let mut i: usize = 0;
                while i < 4
                    invariant
                        self.wf(),
                        cells@.len() == 4,
                        projectable(*piece),
                        forall|k: int| 0 <= k < 4 ==> ((#[trigger] cells@[k]).x as int, cells@[k].y
                            as int) == world_cell_spec(*piece, k),
                        i <= 4,
                        forall|k: int| 0 <= k < i ==> self.world_cell_free(*piece, k),
                    decreases 4 - i,
                {
                    let c = cells[i];
                    if !Self::on_matrix(c) {
                        assert(!self.world_cell_free(*piece, i as int));
                        return true;
                    }
                    if self.cell_at(c).is_some() {
                        assert(!self.world_cell_free(*piece, i as int));
                        return true;
                    }
                    i = i + 1;
                }
                false
            }
            None => true,
        }
    }
}

/// Law: a piece is placeable on a matrix exactly when it is not clipping;
/// in particular a piece that does not project is never placeable and is
/// always clipping.
pub proof fn lemma_placeable_iff_not_clipping(m: &Matrix, p: Piece)
    ensures
        m.placeable_spec(p) <==> !m.clipping_spec(p),
{
}

/// A piece that does not clip rests fully on the board, so its anchor lies
/// within a few cells of the board's edges.
pub proof fn lemma_not_clipping_anchor_bounds(m: &Matrix, p: Piece)
    requires
        !m.clipping_spec(p),
    ensures
        -6 <= p.position.x <= 15,
        -6 <= p.position.y <= 25,
{
    assert(m.world_cell_free(p, 0));
    lemma_kind_cells_bounds(p.kind, 0);
    lemma_rotate_correct_bounds(p.kind, p.rotation, kind_cells_spec(p.kind)[0]);
}

/// The board coordinate visited at step `i` of a row-major traversal.
pub open spec fn row_major_coord(i: int) -> Coordinate {
    Coordinate { x: (i % (WIDTH as int)) as usize, y: (i / (WIDTH as int)) as usize }
}

/// Row-major stepping through the grid: advance `x`, wrapping into the
/// next row when it passes the right edge.
pub trait GridIncrement: Sized {
    /// The value after one step.
    spec fn grid_incremented(self) -> Self;

    /// When a step is defined; guards machine-width overflow only.
    spec fn can_grid_inc(self) -> bool;

    /// Step in place.
    fn grid_incd(&mut self)
        requires
            old(self).can_grid_inc(),
        ensures
            *final(self) == old(self).grid_incremented(),
    ;

    /// Step by value.
    fn grid_inc(self) -> (r: Self)
        requires
            self.can_grid_inc(),
        ensures
            r == self.grid_incremented(),
    ;
}

impl GridIncrement for Coordinate {
    open spec fn grid_incremented(self) -> Coordinate {
        if self.x + 1 < WIDTH {
            Coordinate { x: (self.x + 1) as usize, y: self.y }
        } else {
            Coordinate { x: 0, y: (self.y + 1) as usize }
        }
    }

    open spec fn can_grid_inc(self) -> bool {
        self.x < WIDTH && self.y < usize::MAX
    }

    fn grid_incd(&mut self) {
        let x1 = self.x + 1;
        proof {
            if x1 < WIDTH {
                vstd::arithmetic::div_mod::lemma_small_mod(x1 as nat, WIDTH as nat);
            }
        }
        self.x = x1 % WIDTH;
        if self.x == 0 {
            self.y = self.y + 1;
        }
    }

    fn grid_inc(self) -> (r: Coordinate) {
        let mut c = self;
        c.grid_incd();
        c
    }
}

/// Advancing one step follows the row-major numbering.
proof fn lemma_row_major_step(i: int)
    requires
        0 <= i < SIZE,
    ensures
        row_major_coord(i).grid_incremented() == row_major_coord(i + 1),
{
    let x = i % 10;
    let y = i / 10;
    vstd::arithmetic::div_mod::lemma_mod_pos_bound(i, 10);
    vstd::arithmetic::div_mod::lemma_fundamental_div_mod(i, 10);
    assert(i == 10 * y + x);
    if x + 1 < 10 {
        vstd::arithmetic::div_mod::lemma_fundamental_div_mod_converse(i + 1, 10, y, x + 1);
    } else {
        vstd::arithmetic::div_mod::lemma_fundamental_div_mod_converse(i + 1, 10, y + 1, 0);
    }
}

/// A finite, restartable, row-major traversal over a snapshot of the
/// board, yielding each coordinate and its cell value exactly once,
/// starting at (0, 0) and advancing `x` before `y`.
pub struct CellIter {
    position: Coordinate,
    cells: Vec<Option<Color>>,
    index: usize,
}

impl CellIter {
    /// The snapshot being traversed.
    pub closed spec fn contents(&self) -> Seq<Option<Color>> {
        self.cells@
    }

    /// How many cells have been yielded so far.
    pub closed spec fn at(&self) -> int {
        self.index as int
    }

    pub closed spec fn wf(&self) -> bool {
        &&& self.cells@.len() == SIZE
        &&& self.index <= SIZE
        &&& self.position == row_major_coord(self.index as int)
    }

    /// A fresh traversal over a snapshot of `m`.
    pub fn new(m: &Matrix) -> (it: CellIter)
        requires
            m.wf(),
        ensures
            it.wf(),
            it.at() == 0,
            it.contents() == m@,
    {
        let mut cells: Vec<Option<Color>> = Vec::new();
        let mut i: usize = 0;
        while i < SIZE
            invariant
                m.wf(),
                i <= SIZE,
                cells@.len() == i,
                forall|j: int| 0 <= j < i ==> cells@[j] == m@[j],
            decreases SIZE - i,
        {
            cells.push(m.cells[i]);
            i = i + 1;
        }
        proof {
            assert(cells@ =~= m@);
        }
        CellIter { position: Coordinate { x: 0, y: 0 }, cells, index: 0 }
    }

    /// The next (coordinate, cell value) pair, or `None` when the whole
    /// board has been yielded.
    pub fn next(&mut self) -> (r: Option<(Coordinate, Option<Color>)>)
        requires
            old(self).wf(),
        ensures
            final(self).wf(),
            final(self).contents() == old(self).contents(),
            old(self).at() < SIZE ==> final(self).at() == old(self).at() + 1 && r == Some(
                (row_major_coord(old(self).at()), old(self).contents()[old(self).at()]),
            ),
            old(self).at() >= SIZE ==> final(self).at() == old(self).at() && r is None,
    {
        if self.index < SIZE {
            let coord = self.position;
            let cell = self.cells[self.index];
            self.index = self.index + 1;
            proof {
                vstd::arithmetic::div_mod::lemma_mod_pos_bound(old(self).index as int, WIDTH as int);
                lemma_row_major_step(old(self).index as int);
            }
            self.position.grid_incd();
            Some((coord, cell))
        } else {
            None
        }
    }
}

} // verus!

use vstd::prelude::*;

verus! {

use crate::geometry::{Coordinate, Offset, offset_in_range};
use crate::matrix::{Color, WIDTH};

/// The seven piece shapes.
#[derive(Clone, Copy, Debug, PartialEq, Eq, Structural)]
pub enum Kind {
    O,
    I,
    T,
    L,
    J,
    S,
    Z,
}

/// The four orientations a piece can hold: `N` is upright, `E` one quarter
/// turn clockwise, `S` a half turn, `W` three quarter turns.
#[derive(Clone, Copy, Debug, PartialEq, Eq, Structural)]
pub enum Rotation {
    N,
    S,
    E,
    W,
}

/// The seven kinds in declaration order; a freshly refilled bag holds
/// exactly these.
pub open spec fn all_kinds_spec() -> Seq<Kind> {
    seq![Kind::O, Kind::I, Kind::T, Kind::L, Kind::J, Kind::S, Kind::Z]
}

/// The canonical 4-cell layout of a kind, as local offsets with the origin
/// at the bottom-left corner of the kind's bounding grid.
pub open spec fn kind_cells_spec(k: Kind) -> Seq<(int, int)> {
    match k {
        Kind::O => seq![(1int, 1int), (1int, 2int), (2int, 2int), (2int, 1int)],
        Kind::I => seq![(0int, 2int), (1int, 2int), (2int, 2int), (3int, 2int)],
        Kind::T => seq![(0int, 1int), (1int, 1int), (1int, 2int), (2int, 1int)],
        Kind::L => seq![(0int, 1int), (1int, 1int), (2int, 1int), (2int, 2int)],
        Kind::J => seq![(0int, 1int), (0int, 2int), (1int, 1int), (2int, 1int)],
        Kind::S => seq![(0int, 1int), (1int, 1int), (1int, 2int), (2int, 2int)],
        Kind::Z => seq![(0int, 2int), (1int, 2int), (1int, 1int), (2int, 1int)],
    }
}

/// The side of a kind's bounding grid, used only to correct the rotation
/// pivot: the I piece lives in a 4x4 grid, every other kind in a 3x3 one.
pub open spec fn grid_size_spec(k: Kind) -> int {
    match k {
        Kind::I => 4,
        _ => 3,
    }
}

/// The fixed color of each kind.
pub open spec fn color_spec(k: Kind) -> Color {
    match k {
        Kind::O => Color::Yellow,
        Kind::I => Color::Cyan,
        Kind::T => Color::Purple,
        Kind::L => Color::Orange,
        Kind::J => Color::Blue,
        Kind::S => Color::Green,
        Kind::Z => Color::Red,
    }
}

/// One clockwise step through the rotation cycle N -> E -> S -> W -> N.
pub open spec fn clockwise_spec(r: Rotation) -> Rotation {
    match r {
        Rotation::N => Rotation::E,
        Rotation::E => Rotation::S,
        Rotation::S => Rotation::W,
        Rotation::W => Rotation::N,
    }
}

/// Integer rotation of a local cell about the origin.
pub open spec fn rotated_about_origin(r: Rotation, o: (int, int)) -> (int, int) {
    match r {
        Rotation::N => o,
        Rotation::S => (-o.0, -o.1),
        Rotation::E => (o.1, -o.0),
        Rotation::W => (-o.1, o.0),
    }
}

/// The direction of the pivot correction applied after rotating, per axis.
pub open spec fn intrinsic_offset_spec(r: Rotation) -> (int, int) {
    match r {
        Rotation::N => (0, 0),
        Rotation::S => (1, 1),
        Rotation::E => (0, 1),
        Rotation::W => (1, 0),
    }
}

/// A local cell after rotation and pivot correction.  The O kind is
/// rotationally symmetric, so rotating it is a no-op.
pub open spec fn rotate_correct(k: Kind, r: Rotation, o: (int, int)) -> (int, int) {
    if k is O {
        o
    } else {
        let q = rotated_about_origin(r, o);
        let io = intrinsic_offset_spec(r);
        let s = grid_size_spec(k) - 1;
        (q.0 + io.0 * s, q.1 + io.1 * s)
    }
}

/// The currently falling piece: a kind, a world anchor, and an orientation.
#[derive(Clone, Copy, Debug, PartialEq, Eq, Structural)]
pub struct Piece {
    pub kind: Kind,
    pub position: Offset,
    pub rotation: Rotation,
}

/// Local cell `i` of the piece after rotation and pivot correction.
pub open spec fn rotated_cell_spec(p: Piece, i: int) -> (int, int) {
    rotate_correct(p.kind, p.rotation, kind_cells_spec(p.kind)[i])
}

/// World cell `i` of the piece: the rotated local cell translated by the
/// piece's anchor.
pub open spec fn world_cell_spec(p: Piece, i: int) -> (int, int) {
    (rotated_cell_spec(p, i).0 + p.position.x, rotated_cell_spec(p, i).1 + p.position.y)
}

/// World cell `i` can be cast to a board coordinate: both components are
/// non-negative and the column lies left of WIDTH.  Rows are only checked
/// against HEIGHT by the matrix, not here.
pub open spec fn cell_projects(p: Piece, i: int) -> bool {
    &&& 0 <= world_cell_spec(p, i).0 < WIDTH
    &&& 0 <= world_cell_spec(p, i).1
}

/// The whole piece projects onto board coordinates.
pub open spec fn projectable(p: Piece) -> bool {
    forall|i: int| 0 <= i < 4 ==> cell_projects(p, i)
}

/// The same piece with its anchor translated; no validity check is made.
pub open spec fn translated_spec(p: Piece, dx: int, dy: int) -> Piece {
    Piece {
        position: Offset { x: (p.position.x + dx) as isize, y: (p.position.y + dy) as isize },
        ..p
    }
}

/// The same piece turned one step clockwise about its own pivot.
pub open spec fn rotated_piece_spec(p: Piece) -> Piece {
    Piece { rotation: clockwise_spec(p.rotation), ..p }
}

impl Kind {
    /// One of each kind, in declaration order; the raw contents of a refill.
    pub fn all() -> (v: Vec<Kind>)
        ensures
            v@ == all_kinds_spec(),
    {
        let mut v: Vec<Kind> = Vec::new();
        v.push(Kind::O);
        v.push(Kind::I);
        v.push(Kind::T);
        v.push(Kind::L);
        v.push(Kind::J);
        v.push(Kind::S);
        v.push(Kind::Z);
        proof {
            assert(v@ =~= all_kinds_spec());
        }
        v
    }

    /// The canonical 4-cell layout of this kind.
    fn cells(&self) -> (v: Vec<Offset>)
        ensures
            v@.len() == 4,
            forall|i: int| 0 <= i < 4 ==> ((#[trigger] v@[i]).x as int, v@[i].y as int)
                == kind_cells_spec(*self)[i],
    {
        let mut v: Vec<Offset> = Vec::new();
        match self {
            Kind::O => {
                v.push(Offset::new(1, 1));
                v.push(Offset::new(1, 2));
                v.push(Offset::new(2, 2));
                v.push(Offset::new(2, 1));
            }
            Kind::I => {
                v.push(Offset::new(0, 2));
                v.push(Offset::new(1, 2));
                v.push(Offset::new(2, 2));
                v.push(Offset::new(3, 2));
            }
            Kind::T => {
                v.push(Offset::new(0, 1));
                v.push(Offset::new(1, 1));
                v.push(Offset::new(1, 2));
                v.push(Offset::new(2, 1));
            }
            Kind::L => {
                v.push(Offset::new(0, 1));
                v.push(Offset::new(1, 1));
                v.push(Offset::new(2, 1));
                v.push(Offset::new(2, 2));
            }
            Kind::J => {
                v.push(Offset::new(0, 1));
                v.push(Offset::new(0, 2));
                v.push(Offset::new(1, 1));
                v.push(Offset::new(2, 1));
            }
            Kind::S => {
                v.push(Offset::new(0, 1));
                v.push(Offset::new(1, 1));
                v.push(Offset::new(1, 2));
                v.push(Offset::new(2, 2));
            }
            Kind::Z => {
                v.push(Offset::new(0, 2));
                v.push(Offset::new(1, 2));
                v.push(Offset::new(1, 1));
                v.push(Offset::new(2, 1));
            }
        }
        v
    }

    /// The side of this kind's bounding grid.
    pub fn grid_size(&self) -> (s: isize)
        ensures
            s == grid_size_spec(*self),
    {
        match self {
            Kind::I => 4,
            _ => 3,
        }
    }

    /// The fixed color of this kind.
    pub fn color(&self) -> (c: Color)
        ensures
            c == color_spec(*self),
    {
        match self {
            Kind::O => Color::Yellow,
            Kind::I => Color::Cyan,
            Kind::T => Color::Purple,
            Kind::L => Color::Orange,
            Kind::J => Color::Blue,
            Kind::S => Color::Green,
            Kind::Z => Color::Red,
        }
    }
}

impl Rotation {
    /// Rotate a local cell about the origin.
    fn apply_to(&self, cell: Offset) -> (r: Offset)
        requires
            -8 <= cell.x <= 8,
            -8 <= cell.y <= 8,
        ensures
            (r.x as int, r.y as int) == rotated_about_origin(*self, (cell.x as int, cell.y as int)),
    {
        match self {
            Rotation::N => cell,
            Rotation::S => Offset::new(-cell.x, -cell.y),
            Rotation::E => Offset::new(cell.y, -cell.x),
            Rotation::W => Offset::new(-cell.y, cell.x),
        }
    }

    /// The direction of the pivot correction for this orientation.
    fn intrinsic_offset(&self) -> (o: Offset)
        ensures
            (o.x as int, o.y as int) == intrinsic_offset_spec(*self),
    {
        match self {
            Rotation::N => Offset::new(0, 0),
            Rotation::S => Offset::new(1, 1),
            Rotation::E => Offset::new(0, 1),
            Rotation::W => Offset::new(1, 0),
        }
    }

    /// One clockwise step through the rotation cycle.
    pub fn clockwise(&self) -> (r: Rotation)
        ensures
            r == clockwise_spec(*self),
    {
        match self {
            Rotation::N => Rotation::E,
            Rotation::E => Rotation::S,
            Rotation::S => Rotation::W,
            Rotation::W => Rotation::N,
        }
    }
}

/// Every canonical cell lies in the kind's bounding grid.
pub proof fn lemma_kind_cells_bounds(k: Kind, i: int)
    requires
        0 <= i < 4,
    ensures
        0 <= kind_cells_spec(k)[i].0 <= 3,
        0 <= kind_cells_spec(k)[i].1 <= 3,
{
    match k {
        Kind::O => {}
        Kind::I => {}
        Kind::T => {}
        Kind::L => {}
        Kind::J => {}
        Kind::S => {}
        Kind::Z => {}
    }
}

/// A rotated and corrected canonical cell stays within a small fixed band.
pub proof fn lemma_rotate_correct_bounds(k: Kind, r: Rotation, o: (int, int))
    requires
        0 <= o.0 <= 3,
        0 <= o.1 <= 3,
    ensures
        -3 <= rotate_correct(k, r, o).0 <= 6,
        -3 <= rotate_correct(k, r, o).1 <= 6,
{
    match r {
        Rotation::N => {}
        Rotation::S => {}
        Rotation::E => {}
        Rotation::W => {}
    }
}

/// Rotation and pivot correction never identify two distinct local cells.
pub proof fn lemma_rotate_correct_injective(k: Kind, r: Rotation, a: (int, int), b: (int, int))
    requires
        a != b,
    ensures
        rotate_correct(k, r, a) != rotate_correct(k, r, b),
{
    match r {
        Rotation::N => {}
        Rotation::S => {}
        Rotation::E => {}
        Rotation::W => {}
    }
}

/// The four canonical cells of a kind are pairwise distinct.
pub proof fn lemma_kind_cells_distinct(k: Kind, i: int, j: int)
    requires
        0 <= i < 4,
        0 <= j < 4,
        i != j,
    ensures
        kind_cells_spec(k)[i] != kind_cells_spec(k)[j],
{
    match k {
        Kind::O => {}
        Kind::I => {}
        Kind::T => {}
        Kind::L => {}
        Kind::J => {}
        Kind::S => {}
        Kind::Z => {}
    }
}

/// Law: whatever its kind, orientation, and anchor, the four world cells of
/// a piece are pairwise distinct.
pub proof fn lemma_world_cells_distinct(p: Piece)
    ensures
        forall|i: int, j: int|
            0 <= i < 4 && 0 <= j < 4 && i != j ==> world_cell_spec(p, i) != world_cell_spec(p, j),
{
    assert forall|i: int, j: int|
        0 <= i < 4 && 0 <= j < 4 && i != j implies world_cell_spec(p, i) != world_cell_spec(
        p,
        j,
    ) by {
        lemma_kind_cells_distinct(p.kind, i, j);
        lemma_rotate_correct_injective(
            p.kind,
            p.rotation,
            kind_cells_spec(p.kind)[i],
            kind_cells_spec(p.kind)[j],
        );
    }
}

/// Law: the four coordinates that a projectable piece occupies, as computed
/// by `Piece::cells`, are pairwise distinct.
pub proof fn lemma_projected_cells_distinct(p: Piece, cs: Seq<Coordinate>)
    requires
        cs.len() == 4,
        forall|i: int| 0 <= i < 4 ==> ((#[trigger] cs[i]).x as int, cs[i].y as int)
            == world_cell_spec(p, i),
    ensures
        forall|i: int, j: int| 0 <= i < 4 && 0 <= j < 4 && i != j ==> cs[i] != cs[j],
{
    lemma_world_cells_distinct(p);
    assert forall|i: int, j: int| 0 <= i < 4 && 0 <= j < 4 && i != j implies cs[i] != cs[j] by {
        assert(world_cell_spec(p, i) != world_cell_spec(p, j));
    }
}

impl Piece {
    /// Local cell rotated and corrected for this piece's kind and
    /// orientation.
    fn rotate_cell(&self, cell: Offset) -> (r: Offset)
        requires
            0 <= cell.x <= 3,
            0 <= cell.y <= 3,
        ensures
            (r.x as int, r.y as int) == rotate_correct(
                self.kind,
                self.rotation,
                (cell.x as int, cell.y as int),
            ),
            -3 <= r.x <= 6,
            -3 <= r.y <= 6,
    {
        proof {
            lemma_rotate_correct_bounds(self.kind, self.rotation, (cell.x as int, cell.y as int));
        }
        match self.kind {
            Kind::O => cell,
            _ => {
                let q = self.rotation.apply_to(cell);
                let io = self.rotation.intrinsic_offset();
                let s = self.kind.grid_size() - 1;
                Offset::new(q.x + io.x * s, q.y + io.y * s)
            }
        }
    }

    /// The four world coordinates this piece currently occupies, or `None`
    /// when some world cell has a negative component or a column at or past
    /// WIDTH, in which case the piece is not representable on the board.
    pub fn cells(&self) -> (r: Option<Vec<Coordinate>>)
        requires
            offset_in_range(self.position),
        ensures
            match r {
                Some(cs) => projectable(*self) && cs@.len() == 4 && forall|i: int|
                    0 <= i < 4 ==> ((#[trigger] cs@[i]).x as int, cs@[i].y as int)
                        == world_cell_spec(*self, i),
                None => !projectable(*self),
            },
    {
        let offsets = self.kind.cells();
        let mut coords: Vec<Coordinate> = Vec::new();
        let mut idx: usize = 0;
        while idx < 4
            invariant
                offsets@.len() == 4,
                forall|i: int| 0 <= i < 4 ==> ((#[trigger] offsets@[i]).x as int, offsets@[i].y
                    as int) == kind_cells_spec(self.kind)[i],
                idx <= 4,
                coords@.len() == idx,
                offset_in_range(self.position),
                forall|i: int| 0 <= i < idx ==> cell_projects(*self, i),
                forall|i: int| 0 <= i < idx ==> ((#[trigger] coords@[i]).x as int, coords@[i].y
                    as int) == world_cell_spec(*self, i),
            decreases 4 - idx,
        {
            proof {
                lemma_kind_cells_bounds(self.kind, idx as int);
            }
            let cell = offsets[idx];
            let rotated = self.rotate_cell(cell);
            let world_x = rotated.x + self.position.x;
            let world_y = rotated.y + self.position.y;
            if world_x < 0 || world_y < 0 || world_x >= (WIDTH as isize) {
                assert(!cell_projects(*self, idx as int));
                return None;
            }
            coords.push(Coordinate { x: world_x as usize, y: world_y as usize });
            idx = idx + 1;
        }
        Some(coords)
    }

    /// A copy of this piece with its anchor translated by `offset`; no
    /// validity check is made, callers validate against the matrix.
    pub fn moved_by(&self, offset: Offset) -> (p: Piece)
        requires
            isize::MIN <= self.position.x + offset.x <= isize::MAX,
            isize::MIN <= self.position.y + offset.y <= isize::MAX,
        ensures
            p == translated_spec(*self, offset.x as int, offset.y as int),
    {
        Piece { position: self.position.plus(offset), ..*self }
    }
}

} // verus!

use vstd::prelude::*;

verus! {

use crate::geometry::{Coordinate, Offset, anchor_in_range};
use crate::matrix::{
    CellIter, Color, Matrix, SIZE, lemma_not_clipping_anchor_bounds,
    lemma_placeable_iff_not_clipping, placed_prefix_spec, placed_spec,
};
use crate::piece::{
    Kind, Piece, Rotation, all_kinds_spec, color_spec, projectable, rotated_piece_spec,
    translated_spec, world_cell_spec,
};
use rand::seq::SliceRandom;
use vstd::multiset::Multiset;

/// rand's thread-local generator handle, declared so it can live in a
/// field; its values are opaque to the verifier.
#[verifier::external_type_specification]
#[verifier::external_body]
pub struct ExThreadRng(rand::rngs::ThreadRng);

/// Relies on rand::thread_rng: a fresh handle to the thread-local
/// generator.  Nothing is assumed about the values it will produce.
#[verifier::external_body]
fn fresh_rng() -> rand::rngs::ThreadRng {
    rand::thread_rng()
}

/// Relies on rand::seq::SliceRandom::shuffle: a Fisher-Yates shuffle that
/// reorders the slice in place by swapping elements, so whatever the
/// outcome, it holds exactly the elements it held before.
#[verifier::external_body]
fn shuffle_kinds(v: &mut Vec<Kind>, rng: &mut rand::rngs::ThreadRng)
    ensures
        final(v)@.to_multiset() == old(v)@.to_multiset(),
        final(v)@.len() == old(v)@.len(),
{
    v.shuffle(rng)
}

/// A horizontal movement command.
#[derive(Clone, Copy, Debug, PartialEq, Eq, Structural)]
pub enum MoveKind {
    Left,
    Right,
}

/// The unit offset of a horizontal move.
pub open spec fn move_offset_spec(k: MoveKind) -> (int, int) {
    match k {
        MoveKind::Left => (-1, 0),
        MoveKind::Right => (1, 0),
    }
}

impl MoveKind {
    fn offset(&self) -> (o: Offset)
        ensures
            (o.x as int, o.y as int) == move_offset_spec(*self),
    {
        match self {
            MoveKind::Left => Offset::new(-1, 0),
            MoveKind::Right => Offset::new(1, 0),
        }
    }
}

/// The cursor moved one row toward the floor.
pub open spec fn down_candidate(p: Piece) -> Piece {
    translated_spec(p, 0, -1)
}

/// Where the cursor comes to rest when dropped straight down from a
/// non-clipping position: the last position reached by stepping one row
/// down as long as the step does not clip.
pub open spec fn landing_spec(m: Matrix, p: Piece) -> Piece
    decreases p.position.y + 6,
        when !m.clipping_spec(p)
{
    if m.clipping_spec(down_candidate(p)) {
        p
    } else {
        proof {
            lemma_not_clipping_anchor_bounds(&m, p);
            lemma_not_clipping_anchor_bounds(&m, down_candidate(p));
        }
        landing_spec(m, down_candidate(p))
    }
}

/// The simulation core: the board of locked cells, the supply bag, the
/// random source that shuffles it, and the currently falling cursor.
pub struct Engine {
    matrix: Matrix,
    bag: Vec<Kind>,
    rng: rand::rngs::ThreadRng,
    cursor: Option<Piece>,
}

impl Engine {
    /// The board of locked cells.
    pub closed spec fn matrix_spec(&self) -> Matrix {
        self.matrix
    }

    /// The kinds waiting in the bag, next to spawn last.
    pub closed spec fn bag_spec(&self) -> Seq<Kind> {
        self.bag@
    }

    /// The currently falling piece, if any.
    pub closed spec fn cursor_spec(&self) -> Option<Piece> {
        self.cursor
    }

    /// Engine states handed out by the library are well formed: the board
    /// has its fixed size, and an active cursor's anchor stays in the safe
    /// range so that unit steps cannot overflow.
    pub open spec fn wf(&self) -> bool {
        &&& self.matrix_spec().wf()
        &&& self.cursor_spec() is Some ==> anchor_in_range(self.cursor_spec()->0.position)
    }

    /// The cursor moved one row down, when a cursor exists and the moved
    /// piece does not clip.
    pub open spec fn ticked_down_spec(&self) -> Option<Piece> {
        if self.cursor_spec() is Some {
            let p = self.cursor_spec()->0;
            if self.matrix_spec().clipping_spec(down_candidate(p)) {
                None
            } else {
                Some(down_candidate(p))
            }
        } else {
            None
        }
    }

    /// A cursor exists and one more row down would clip.
    pub open spec fn has_hit_bottom_spec(&self) -> bool {
        self.cursor_spec() is Some && self.ticked_down_spec() is None
    }

    /// `tick_down` may be called: a cursor exists and stepping it one row
    /// down does not clip.
    pub open spec fn tick_down_allowed(&self) -> bool {
        self.ticked_down_spec() is Some
    }

    /// Where a freshly spawned piece starts: its bounding grid enters
    /// horizontally centered in the top rows of the board.
    pub open spec fn spawn_position_spec() -> Offset {
        Offset { x: 3, y: 17 }
    }

    /// A fresh engine: blank board, empty bag, no cursor.
    pub fn new() -> (e: Engine)
        ensures
            e.wf(),
            forall|i: int| 0 <= i < SIZE ==> e.matrix_spec()@[i] is None,
            e.bag_spec().len() == 0,
            e.cursor_spec() is None,
    {
        Engine { matrix: Matrix::blank(), bag: Vec::new(), rng: fresh_rng(), cursor: None }
    }

    /// A fresh engine around an existing board.
    pub fn with_matrix(matrix: Matrix) -> (e: Engine)
        requires
            matrix.wf(),
        ensures
            e.wf(),
            e.matrix_spec() == matrix,
            e.bag_spec().len() == 0,
            e.cursor_spec() is None,
    {
        Engine { matrix, bag: Vec::new(), rng: fresh_rng(), cursor: None }
    }

    /// Install a cursor directly, for tests and demos: `kind` at
    /// `position` in the upright orientation, with no validity check.
    pub fn debug_test_cursor(&mut self, kind: Kind, position: Offset)
        requires
            old(self).wf(),
            anchor_in_range(position),
        ensures
            final(self).wf(),
            final(self).matrix_spec() == old(self).matrix_spec(),
            final(self).bag_spec() == old(self).bag_spec(),
            final(self).cursor_spec() matches Some(p) && p.kind == kind && p.rotation
                == Rotation::N && p.position == position,
    {
        self.cursor = Some(Piece { kind, rotation: Rotation::N, position });
    }

    /// Refill the empty bag with one of each of the seven kinds in a
    /// uniformly shuffled order.
    pub fn refill_bag(&mut self)
        requires
            old(self).wf(),
            old(self).bag_spec().len() == 0,
        ensures
            final(self).wf(),
            final(self).matrix_spec() == old(self).matrix_spec(),
            final(self).cursor_spec() == old(self).cursor_spec(),
            final(self).bag_spec().to_multiset() == all_kinds_spec().to_multiset(),
            final(self).bag_spec().len() == 7,
            forall|k: Kind| #[trigger] final(self).bag_spec().to_multiset().count(k) == 1,
    {
        let mut kinds = Kind::all();
        shuffle_kinds(&mut kinds, &mut self.rng);
        self.bag = kinds;
        proof {
            lemma_all_kinds_counts();
        }
    }

    /// Lock the cursor: write its four projected cells into the board with
    /// its kind's color and clear the cursor.  The caller must have
    /// established that the location is placeable.
    pub fn place_cursor(&mut self)
        requires
            old(self).wf(),
            old(self).cursor_spec() is Some,
            old(self).matrix_spec().placeable_spec(old(self).cursor_spec()->0),
        ensures
            final(self).wf(),
            final(self).bag_spec() == old(self).bag_spec(),
            final(self).cursor_spec() is None,
            final(self).matrix_spec()@ == placed_spec(
                old(self).matrix_spec()@,
                old(self).cursor_spec()->0,
            ),
    {
        let ghost m0 = self.matrix;
        let ghost p0 = self.cursor->0;
        let ghost b0 = self.bag@;
        let cursor = self.cursor.unwrap();
        self.cursor = None;
        let cells = cursor.cells().unwrap();
        let color = cursor.kind.color();
        let mut i: usize = 0;
        while i < 4
            invariant
                m0.placeable_spec(p0),
                cells@.len() == 4,
                forall|k: int| 0 <= k < 4 ==> ((#[trigger] cells@[k]).x as int, cells@[k].y
                    as int) == world_cell_spec(p0, k),
                color == color_spec(p0.kind),
                self.cursor is None,
                self.bag@ == b0,
                self.matrix.wf(),
                i <= 4,
                self.matrix@ == placed_prefix_spec(m0@, p0, i as int),
            decreases 4 - i,
        {
            let c = cells[i];
            proof {
                assert(m0.world_cell_free(p0, i as int));
            }
            self.matrix.set_cell(c, Some(color));
            i = i + 1;
        }
    }

    /// Try to move the cursor one column left or right; a blocked move
    /// fails and leaves the whole engine unchanged.  With no active cursor
    /// the command is accepted and changes nothing.
    pub fn move_cursor(&mut self, kind: MoveKind) -> (r: Result<(), ()>)
        requires
            old(self).wf(),
        ensures
            final(self).wf(),
            final(self).matrix_spec() == old(self).matrix_spec(),
            final(self).bag_spec() == old(self).bag_spec(),
            old(self).cursor_spec() is None ==> r is Ok && final(self).cursor_spec() is None,
            old(self).cursor_spec() is Some ==> {
                let cand = translated_spec(
                    old(self).cursor_spec()->0,
                    move_offset_spec(kind).0,
                    move_offset_spec(kind).1,
                );
                if old(self).matrix_spec().clipping_spec(cand) {
                    &&& r is Err
                    &&& final(self).cursor_spec() == old(self).cursor_spec()
                } else {
                    &&& r is Ok
                    &&& final(self).cursor_spec() == Some(cand)
                }
            },
    {
        match self.cursor {
            Some(cursor) => {
                let new_cursor = cursor.moved_by(kind.offset());
                if self.matrix.is_clipping(&new_cursor) {
                    Err(())
                } else {
                    proof {
                        lemma_not_clipping_anchor_bounds(&self.matrix, new_cursor);
                    }
                    self.cursor = Some(new_cursor);
                    Ok(())
                }
            }
            None => Ok(()),
        }
    }

    /// Try to turn the cursor one step clockwise in place; a clipping
    /// result is rejected and leaves the whole engine unchanged (no wall
    /// kick is attempted).  With no active cursor the command is accepted
    /// and changes nothing.
    pub fn rotate_clockwise(&mut self) -> (r: Result<(), ()>)
        requires
            old(self).wf(),
        ensures
            final(self).wf(),
            final(self).matrix_spec() == old(self).matrix_spec(),
            final(self).bag_spec() == old(self).bag_spec(),
            old(self).cursor_spec() is None ==> r is Ok && final(self).cursor_spec() is None,
            old(self).cursor_spec() is Some ==> {
                let cand = rotated_piece_spec(old(self).cursor_spec()->0);
                if old(self).matrix_spec().clipping_spec(cand) {
                    &&& r is Err
                    &&& final(self).cursor_spec() == old(self).cursor_spec()
                } else {
                    &&& r is Ok
                    &&& final(self).cursor_spec() == Some(cand)
                }
            },
    {
        match self.cursor {
            Some(cursor) => {
                let new_cursor = Piece {
                    kind: cursor.kind,
                    position: cursor.position,
                    rotation: cursor.rotation.clockwise(),
                };
                if self.matrix.is_clipping(&new_cursor) {
                    Err(())
                } else {
                    self.cursor = Some(new_cursor);
                    Ok(())
                }
            }
            None => Ok(()),
        }
    }

    /// The cursor moved one row down, when that does not clip.
    fn ticked_down_cursor(&self) -> (r: Option<Piece>)
        requires
            self.wf(),
        ensures
            r == self.ticked_down_spec(),
    {
        match self.cursor {
            Some(cursor) => {
                let new_cursor = cursor.moved_by(Offset::new(0, -1));
                if self.matrix.is_clipping(&new_cursor) {
                    None
                } else {
                    Some(new_cursor)
                }
            }
            None => None,
        }
    }

    /// A cursor exists and one more row down would clip: locking is due.
    pub fn cusor_has_hit_bottom(&self) -> (r: bool)
        requires
            self.wf(),
        ensures
            r == self.has_hit_bottom_spec(),
    {
        self.cursor.is_some() && self.ticked_down_cursor().is_none()
    }

    /// Move the cursor one row down unconditionally.  The caller must have
    /// established, via `cusor_has_hit_bottom`, that the step does not
    /// clip.
    pub fn tick_down(&mut self)
        requires
            old(self).wf(),
            old(self).tick_down_allowed(),
        ensures
            final(self).wf(),
            final(self).matrix_spec() == old(self).matrix_spec(),
            final(self).bag_spec() == old(self).bag_spec(),
            final(self).cursor_spec() == old(self).ticked_down_spec(),
    {
        let next = self.ticked_down_cursor();
        proof {
            lemma_not_clipping_anchor_bounds(&self.matrix, self.ticked_down_spec()->0);
        }
        self.cursor = Some(next.unwrap());
    }

    /// Drop the cursor straight down to its resting place and lock it
    /// there.  The cursor must exist and not be clipping where it stands.
    pub fn hard_drop(&mut self)
        requires
            old(self).wf(),
            old(self).cursor_spec() is Some,
            !old(self).matrix_spec().clipping_spec(old(self).cursor_spec()->0),
        ensures
            final(self).wf(),
            final(self).bag_spec() == old(self).bag_spec(),
            final(self).cursor_spec() is None,
            final(self).matrix_spec()@ == placed_spec(
                old(self).matrix_spec()@,
                landing_spec(old(self).matrix_spec(), old(self).cursor_spec()->0),
            ),
    {
        let ghost m0 = self.matrix;
        let ghost p0 = self.cursor->0;
        let ghost b0 = self.bag@;
        while !self.cusor_has_hit_bottom()
            invariant
                self.wf(),
                self.matrix == m0,
                self.bag@ == b0,
                self.cursor is Some,
                !m0.clipping_spec(self.cursor->0),
                landing_spec(m0, self.cursor->0) == landing_spec(m0, p0),
            decreases self.cursor->0.position.y + 6,
        {
            let ghost prev = self.cursor->0;
            proof {
                lemma_not_clipping_anchor_bounds(&m0, prev);
            }
            self.tick_down();
            proof {
                assert(self.cursor->0 == down_candidate(prev));
                assert(self.cursor->0.position.y == prev.position.y - 1);
                lemma_not_clipping_anchor_bounds(&m0, self.cursor->0);
                assert(landing_spec(m0, prev) == landing_spec(m0, self.cursor->0));
            }
        }
        proof {
            lemma_placeable_iff_not_clipping(&m0, self.cursor->0);
            assert(landing_spec(m0, self.cursor->0) == self.cursor->0);
        }
        self.place_cursor();
    }

    /// Spawn the next piece: draw a kind from the bag (refilling an empty
    /// bag first) and start it falling at the fixed spawn position in the
    /// upright orientation.  `Err` reports that the fresh cursor is
    /// already clipping, the game-over condition for the surrounding loop;
    /// the cursor is installed either way, never silently dropped.
    pub fn spawn(&mut self) -> (r: Result<(), ()>)
        requires
            old(self).wf(),
            old(self).cursor_spec() is None,
        ensures
            final(self).wf(),
            final(self).matrix_spec() == old(self).matrix_spec(),
            final(self).cursor_spec() matches Some(p) && p.rotation == Rotation::N && p.position
                == Self::spawn_position_spec(),
            old(self).bag_spec().len() > 0 ==> final(self).bag_spec()
                == old(self).bag_spec().drop_last() && final(self).cursor_spec()->0.kind
                == old(self).bag_spec().last(),
            old(self).bag_spec().len() == 0 ==> final(self).bag_spec().len() == 6
                && final(self).bag_spec().push(final(self).cursor_spec()->0.kind).to_multiset()
                == all_kinds_spec().to_multiset(),
            r is Ok <==> !final(self).matrix_spec().clipping_spec(final(self).cursor_spec()->0),
    {
        if self.bag.len() == 0 {
            self.refill_bag();
        }
        let ghost bfull = self.bag@;
        let kind = self.bag.pop().unwrap();
        proof {
            assert(bfull.drop_last().push(bfull.last()) =~= bfull);
        }
        let piece = Piece { kind, rotation: Rotation::N, position: Offset::new(3, 17) };
        self.cursor = Some(piece);
        if self.matrix.is_clipping(&piece) {
            Err(())
        } else {
            Ok(())
        }
    }

    /// A row-major traversal of the locked board contents, for drawing.
    pub fn cells(&self) -> (it: CellIter)
        requires
            self.wf(),
        ensures
            it.wf(),
            it.at() == 0,
            it.contents() == self.matrix_spec()@,
    {
        CellIter::new(&self.matrix)
    }

    /// The four projected coordinates and the color of the active piece,
    /// or `None` when there is no cursor or it does not project.
    pub fn cursor_info(&self) -> (r: Option<(Vec<Coordinate>, Color)>)
        requires
            self.wf(),
        ensures
            match r {
                Some(info) => {
                    &&& self.cursor_spec() is Some
                    &&& projectable(self.cursor_spec()->0)
                    &&& info.1 == color_spec(self.cursor_spec()->0.kind)
                    &&& info.0@.len() == 4
                    &&& forall|i: int| 0 <= i < 4 ==> ((#[trigger] info.0@[i]).x as int,
                        info.0@[i].y as int) == world_cell_spec(self.cursor_spec()->0, i)
                },
                None => self.cursor_spec() is None || !projectable(self.cursor_spec()->0),
            },
    {
        match self.cursor {
            Some(cursor) => {
                match cursor.cells() {
                    Some(cells) => Some((cells, cursor.kind.color())),
                    None => None,
                }
            }
            None => None,
        }
    }

    /// The active piece, if any.
    pub fn cursor(&self) -> (r: Option<Piece>)
        ensures
            r == self.cursor_spec(),
    {
        self.cursor
    }

    /// A copy of the kinds currently waiting in the bag, next to spawn
    /// last.
    pub fn bag_kinds(&self) -> (v: Vec<Kind>)
        ensures
            v@ == self.bag_spec(),
    {
        let mut v: Vec<Kind> = Vec::new();
        let mut i: usize = 0;
        while i < self.bag.len()
            invariant
                i <= self.bag@.len(),
                v@.len() == i,
                forall|j: int| 0 <= j < i ==> v@[j] == self.bag@[j],
            decreases self.bag@.len() - i,
        {
            v.push(self.bag[i]);
            i = i + 1;
        }
        proof {
            assert(v@ =~= self.bag@);
        }
        v
    }
}

/// Law: with an active cursor, the cursor has hit bottom exactly when a
/// tick down is not allowed, in both directions.
pub proof fn lemma_hit_bottom_iff_tick_down_blocked(e: &Engine)
    requires
        e.cursor_spec() is Some,
    ensures
        e.has_hit_bottom_spec() <==> !e.tick_down_allowed(),
{
}

/// The seven-kind sequence holds each kind exactly once as a multiset.
pub proof fn lemma_all_kinds_counts()
    ensures
        forall|k: Kind| #[trigger] all_kinds_spec().to_multiset().count(k) == 1,
        all_kinds_spec().to_multiset().len() == 7,
{
    broadcast use vstd::seq_lib::group_to_multiset_ensures;
    broadcast use vstd::multiset::group_multiset_axioms;

    let e = Seq::<Kind>::empty();
    let s1 = e.push(Kind::O);
    let s2 = s1.push(Kind::I);
    let s3 = s2.push(Kind::T);
    let s4 = s3.push(Kind::L);
    let s5 = s4.push(Kind::J);
    let s6 = s5.push(Kind::S);
    let s7 = s6.push(Kind::Z);
    assert(all_kinds_spec() =~= s7);
    assert(e.to_multiset().len() == 0);
    vstd::multiset::lemma_multiset_empty_len(e.to_multiset());
    assert(e.to_multiset() =~= Multiset::<Kind>::empty());
    assert forall|k: Kind| #[trigger] s7.to_multiset().count(k) == 1 by {
        match k {
            Kind::O => {}
            Kind::I => {}
            Kind::T => {}
            Kind::L => {}
            Kind::J => {}
            Kind::S => {}
            Kind::Z => {}
        }
    }
}

/// Law: a bag whose contents are, as a multiset, exactly the seven kinds
/// is a permutation of them: seven entries, each kind present exactly
/// once, none missing and none duplicated.
pub proof fn lemma_full_bag_is_permutation(bag: Seq<Kind>)
    requires
        bag.to_multiset() == all_kinds_spec().to_multiset(),
    ensures
        bag.len() == 7,
        forall|k: Kind| #[trigger] bag.to_multiset().count(k) == 1,
        forall|k: Kind| bag.contains(k),
{
    broadcast use vstd::seq_lib::group_to_multiset_ensures;

    lemma_all_kinds_counts();
    assert(bag.len() == bag.to_multiset().len());
    assert forall|k: Kind| bag.contains(k) by {
        assert(bag.to_multiset().count(k) == 1);
    }
}

} // verus!

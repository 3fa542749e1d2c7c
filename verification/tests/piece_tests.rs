use tetris_core::geometry::{Coordinate, Offset};
use tetris_core::matrix::Color;
use tetris_core::piece::{Kind, Piece, Rotation};

#[test]
fn s_piece_position() {
    // rotate west
    let s = Piece { kind: Kind::S, position: Offset::new(5, 6), rotation: Rotation::W };

    assert_eq!(
        s.cells(),
        Some(vec![
            Coordinate::new(6, 6),
            Coordinate::new(6, 7),
            Coordinate::new(5, 7),
            Coordinate::new(5, 8),
        ])
    );

    // rotate south
    let s = Piece { kind: Kind::S, position: Offset::new(5, 6), rotation: Rotation::S };

    assert_eq!(
        s.cells(),
        Some(vec![
            Coordinate::new(7, 7),
            Coordinate::new(6, 7),
            Coordinate::new(6, 6),
            Coordinate::new(5, 6),
        ])
    );
}

#[test]
fn centered_piece_cells_are_distinct() {
    let kinds = [Kind::O, Kind::I, Kind::T, Kind::L, Kind::J, Kind::S, Kind::Z];
    let rotations = [Rotation::N, Rotation::S, Rotation::E, Rotation::W];
    for kind in kinds {
        for rotation in rotations {
            let piece = Piece { kind, position: Offset::new(4, 8), rotation };
            let cells = piece.cells().unwrap();
            assert_eq!(cells.len(), 4);
            for i in 0..4 {
                for j in 0..4 {
                    if i != j {
                        assert_ne!(cells[i], cells[j]);
                    }
                }
            }
        }
    }
}

#[test]
fn o_piece_ignores_rotation() {
    let upright = Piece { kind: Kind::O, position: Offset::new(4, 8), rotation: Rotation::N };
    let expected = upright.cells().unwrap();
    for rotation in [Rotation::S, Rotation::E, Rotation::W] {
        let turned = Piece { kind: Kind::O, position: Offset::new(4, 8), rotation };
        assert_eq!(turned.cells().unwrap(), expected);
    }
}

#[test]
fn i_piece_east_cells() {
    // E maps (x, y) to (y, -x) and then corrects by (0, 3) for the 4x4 grid.
    let i = Piece { kind: Kind::I, position: Offset::new(2, 5), rotation: Rotation::E };
    assert_eq!(
        i.cells(),
        Some(vec![
            Coordinate::new(4, 8),
            Coordinate::new(4, 7),
            Coordinate::new(4, 6),
            Coordinate::new(4, 5),
        ])
    );
}

#[test]
fn negative_projection_yields_no_cells() {
    // The T piece's lowest cells sit one row above its anchor, so an anchor
    // at y = -2 pushes a cell below the floor.
    let t = Piece { kind: Kind::T, position: Offset::new(4, -2), rotation: Rotation::N };
    assert_eq!(t.cells(), None);

    // An anchor far enough right pushes a column past the right edge.
    let t = Piece { kind: Kind::T, position: Offset::new(8, 5), rotation: Rotation::N };
    assert_eq!(t.cells(), None);
}

#[test]
fn moved_by_translates_anchor() {
    let t = Piece { kind: Kind::T, position: Offset::new(4, 8), rotation: Rotation::N };
    let moved = t.moved_by(Offset::new(-1, 2));
    assert_eq!(moved.position, Offset::new(3, 10));
    assert_eq!(moved.kind, t.kind);
    assert_eq!(moved.rotation, t.rotation);
}

#[test]
fn rotation_cycle_is_clockwise() {
    assert_eq!(Rotation::N.clockwise(), Rotation::E);
    assert_eq!(Rotation::E.clockwise(), Rotation::S);
    assert_eq!(Rotation::S.clockwise(), Rotation::W);
    assert_eq!(Rotation::W.clockwise(), Rotation::N);
}

#[test]
fn kind_colors_are_fixed() {
    assert_eq!(Kind::O.color(), Color::Yellow);
    assert_eq!(Kind::I.color(), Color::Cyan);
    assert_eq!(Kind::T.color(), Color::Purple);
    assert_eq!(Kind::L.color(), Color::Orange);
    assert_eq!(Kind::J.color(), Color::Blue);
    assert_eq!(Kind::S.color(), Color::Green);
    assert_eq!(Kind::Z.color(), Color::Red);
}

#[test]
fn grid_sizes() {
    assert_eq!(Kind::I.grid_size(), 4);
    for kind in [Kind::O, Kind::T, Kind::L, Kind::J, Kind::S, Kind::Z] {
        assert_eq!(kind.grid_size(), 3);
    }
}

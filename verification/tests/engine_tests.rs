use tetris_core::engine::{Engine, MoveKind};
use tetris_core::geometry::{Coordinate, Offset};
use tetris_core::matrix::{Color, Matrix, HEIGHT, WIDTH};
use tetris_core::piece::Kind;

#[test]
fn cell_iter() {
    let mut matrix = Matrix::blank();
    matrix.set_cell(Coordinate::new(2, 0), Some(Color::Blue));
    matrix.set_cell(Coordinate::new(3, 1), Some(Color::Green));

    let engine = Engine::with_matrix(matrix);
    let mut cell_iter = engine.cells();

    let mut first_five: Vec<(Coordinate, Option<Color>)> = Vec::new();
    for _ in 0..5 {
        first_five.push(cell_iter.next().unwrap());
    }
    assert_eq!(
        first_five,
        [
            (Coordinate::new(0, 0), None),
            (Coordinate::new(1, 0), None),
            (Coordinate::new(2, 0), Some(Color::Blue)),
            (Coordinate::new(3, 0), None),
            (Coordinate::new(4, 0), None),
        ]
    );

    for _ in 0..8 {
        cell_iter.next();
    }
    let green_item = cell_iter.next();
    assert_eq!(green_item, Some((Coordinate::new(3, 1), Some(Color::Green))));

    loop {
        match cell_iter.next() {
            Some((_, content)) => assert!(content.is_none()),
            None => break,
        }
    }
}

#[test]
fn blank_grid_cells_row_major() {
    let engine = Engine::new();
    let mut iter = engine.cells();
    let mut count: usize = 0;
    loop {
        match iter.next() {
            Some((coord, content)) => {
                assert_eq!(coord, Coordinate::new(count % WIDTH, count / WIDTH));
                assert!(content.is_none());
                count += 1;
            }
            None => break,
        }
    }
    assert_eq!(count, WIDTH * HEIGHT);
}

fn kind_counts(kinds: &[Kind]) -> [usize; 7] {
    let mut counts = [0usize; 7];
    for kind in kinds {
        let slot = match kind {
            Kind::O => 0,
            Kind::I => 1,
            Kind::T => 2,
            Kind::L => 3,
            Kind::J => 4,
            Kind::S => 5,
            Kind::Z => 6,
        };
        counts[slot] += 1;
    }
    counts
}

#[test]
fn refilled_bag_is_permutation_of_all_kinds() {
    for _ in 0..20 {
        let mut engine = Engine::new();
        engine.refill_bag();
        let bag = engine.bag_kinds();
        assert_eq!(bag.len(), 7);
        assert_eq!(kind_counts(&bag), [1, 1, 1, 1, 1, 1, 1]);
    }
}

#[test]
fn spawn_draws_from_bag() {
    let mut engine = Engine::new();
    assert!(engine.spawn().is_ok());
    let cursor = engine.cursor().unwrap();
    assert_eq!(cursor.position, Offset::new(3, 17));
    assert_eq!(engine.bag_kinds().len(), 6);

    // Drain the whole bag; the seven kinds spawned before the next refill
    // form a permutation of all seven.
    let mut spawned = vec![cursor.kind];
    for _ in 0..6 {
        engine.hard_drop();
        assert!(engine.spawn().is_ok());
        spawned.push(engine.cursor().unwrap().kind);
    }
    assert_eq!(engine.bag_kinds().len(), 0);
    assert_eq!(kind_counts(&spawned), [1, 1, 1, 1, 1, 1, 1]);
}

#[test]
fn move_cursor_left_blocked_at_edge() {
    let mut engine = Engine::new();
    // The T piece's leftmost cell sits on its anchor column, so column 0 is
    // the leftmost valid anchor.
    engine.debug_test_cursor(Kind::T, Offset::new(0, 10));
    let before = engine.cursor();
    assert!(engine.move_cursor(MoveKind::Left).is_err());
    assert_eq!(engine.cursor(), before);
}

#[test]
fn move_cursor_right_blocked_at_edge() {
    let mut engine = Engine::new();
    // T spans columns x .. x + 2, so column 7 is the rightmost valid anchor.
    engine.debug_test_cursor(Kind::T, Offset::new(7, 10));
    let before = engine.cursor();
    assert!(engine.move_cursor(MoveKind::Right).is_err());
    assert_eq!(engine.cursor(), before);
}

#[test]
fn move_cursor_shifts_anchor() {
    let mut engine = Engine::new();
    engine.debug_test_cursor(Kind::T, Offset::new(4, 10));
    assert!(engine.move_cursor(MoveKind::Left).is_ok());
    assert_eq!(engine.cursor().unwrap().position, Offset::new(3, 10));
    assert!(engine.move_cursor(MoveKind::Right).is_ok());
    assert_eq!(engine.cursor().unwrap().position, Offset::new(4, 10));
}

#[test]
fn move_cursor_without_cursor_is_noop_success() {
    let mut engine = Engine::new();
    assert!(engine.move_cursor(MoveKind::Left).is_ok());
    assert!(engine.cursor().is_none());
}

#[test]
fn hard_drop_locks_piece_at_bottom() {
    let mut engine = Engine::new();
    engine.debug_test_cursor(Kind::O, Offset::new(3, 10));
    engine.hard_drop();
    assert!(engine.cursor().is_none());
    assert!(engine.cursor_info().is_none());

    let expected = [
        Coordinate::new(4, 0),
        Coordinate::new(4, 1),
        Coordinate::new(5, 0),
        Coordinate::new(5, 1),
    ];
    let mut iter = engine.cells();
    let mut colored: usize = 0;
    loop {
        match iter.next() {
            Some((coord, content)) => {
                if expected.contains(&coord) {
                    assert_eq!(content, Some(Color::Yellow));
                    colored += 1;
                } else {
                    assert!(content.is_none());
                }
            }
            None => break,
        }
    }
    assert_eq!(colored, 4);
}

#[test]
fn hard_drop_stacks_on_locked_cells() {
    let mut engine = Engine::new();
    engine.debug_test_cursor(Kind::O, Offset::new(3, 10));
    engine.hard_drop();
    engine.debug_test_cursor(Kind::O, Offset::new(3, 10));
    engine.hard_drop();

    // The second O rests on top of the first: columns 4 and 5, rows 0..4.
    let mut iter = engine.cells();
    let mut colored: Vec<Coordinate> = Vec::new();
    loop {
        match iter.next() {
            Some((coord, content)) => {
                if content.is_some() {
                    colored.push(coord);
                }
            }
            None => break,
        }
    }
    let mut expected: Vec<Coordinate> = Vec::new();
    for y in 0..4 {
        for x in [4, 5] {
            expected.push(Coordinate::new(x, y));
        }
    }
    colored.sort_by_key(|c| (c.y, c.x));
    expected.sort_by_key(|c| (c.y, c.x));
    assert_eq!(colored, expected);
}

#[test]
fn hit_bottom_matches_tick_down_safety() {
    let mut engine = Engine::new();
    // High above the floor: not at the bottom, so a tick down must succeed.
    engine.debug_test_cursor(Kind::O, Offset::new(3, 10));
    assert!(!engine.cusor_has_hit_bottom());
    engine.tick_down();
    assert_eq!(engine.cursor().unwrap().position, Offset::new(3, 9));

    // Resting on the floor: at the bottom, one more row would clip.
    engine.debug_test_cursor(Kind::O, Offset::new(3, -1));
    assert!(engine.cusor_has_hit_bottom());

    // Resting on a locked cell: also at the bottom.
    let mut matrix = Matrix::blank();
    matrix.set_cell(Coordinate::new(4, 0), Some(Color::Red));
    let mut engine = Engine::with_matrix(matrix);
    engine.debug_test_cursor(Kind::O, Offset::new(3, 0));
    assert!(engine.cusor_has_hit_bottom());
}

#[test]
fn failed_move_never_mutates_cursor() {
    let mut matrix = Matrix::blank();
    // Wall off the column left of the cursor.
    matrix.set_cell(Coordinate::new(2, 10), Some(Color::Red));
    matrix.set_cell(Coordinate::new(2, 11), Some(Color::Red));
    let mut engine = Engine::with_matrix(matrix);
    engine.debug_test_cursor(Kind::O, Offset::new(2, 9));
    let before = engine.cursor();
    assert!(engine.move_cursor(MoveKind::Left).is_err());
    assert_eq!(engine.cursor(), before);
    assert_eq!(
        engine.cursor_info().unwrap().0,
        vec![
            Coordinate::new(3, 10),
            Coordinate::new(3, 11),
            Coordinate::new(4, 11),
            Coordinate::new(4, 10),
        ]
    );
}

#[test]
fn rotate_clockwise_turns_cursor_in_place() {
    let mut engine = Engine::new();
    engine.debug_test_cursor(Kind::S, Offset::new(5, 6));
    assert!(engine.rotate_clockwise().is_ok());
    let cursor = engine.cursor().unwrap();
    assert_eq!(cursor.position, Offset::new(5, 6));
    assert_eq!(
        engine.cursor_info().unwrap().0,
        vec![
            Coordinate::new(6, 8),
            Coordinate::new(6, 7),
            Coordinate::new(7, 7),
            Coordinate::new(7, 6),
        ]
    );
    // Three more quarter turns come back to the start.
    let start = engine.cursor();
    assert!(engine.rotate_clockwise().is_ok());
    assert!(engine.rotate_clockwise().is_ok());
    assert!(engine.rotate_clockwise().is_ok());
    assert!(engine.rotate_clockwise().is_ok());
    assert_eq!(engine.cursor(), start);
}

#[test]
fn blocked_rotation_leaves_cursor_unchanged() {
    // An upright I along the floor cannot turn: the vertical result pokes
    // below the board.
    let mut engine = Engine::new();
    engine.debug_test_cursor(Kind::I, Offset::new(0, -2));
    let before = engine.cursor();
    assert!(engine.rotate_clockwise().is_err());
    assert_eq!(engine.cursor(), before);
}

#[test]
fn spawn_on_full_column_reports_game_over() {
    let mut matrix = Matrix::blank();
    for y in 0..HEIGHT {
        for x in [4, 5] {
            matrix.set_cell(Coordinate::new(x, y), Some(Color::Red));
        }
    }
    let mut engine = Engine::with_matrix(matrix);
    // Whatever kind comes out of the bag, its cells meet the full columns.
    assert!(engine.spawn().is_err());
    assert!(engine.cursor().is_some());
}

use rustic_tetris::action::Action;
use rustic_tetris::arena::Arena;
use rustic_tetris::arena::ARENA_HEIGHT;
use rustic_tetris::arena::ARENA_WIDTH;
use rustic_tetris::movement::player_movement;
use rustic_tetris::piece::Position;
use rustic_tetris::piece::Tetrimino;

fn moved(x: i16, y: i16, action: Action, arena: &Arena) -> (Position, Action) {
    let mut piece = Tetrimino { action };
    let mut position = Position { x, y };
    player_movement(&mut piece, &mut position, arena);
    (position, piece.action)
}

#[test]
fn shift_right_moves_one_column() {
    let arena = Arena::new(10, 24).unwrap();
    let (position, _) = moved(5, 10, Action::ShiftRight, &arena);
    assert_eq!(position, Position { x: 6, y: 10 });
}

#[test]
fn shift_right_at_right_edge_stays() {
    let arena = Arena::new(10, 24).unwrap();
    let (position, _) = moved(10, 10, Action::ShiftRight, &arena);
    assert_eq!(position, Position { x: 10, y: 10 });
}

#[test]
fn soft_drop_at_floor_stays() {
    let arena = Arena::new(10, 24).unwrap();
    let (position, _) = moved(0, 0, Action::SoftDrop, &arena);
    assert_eq!(position, Position { x: 0, y: 0 });
}

#[test]
fn shift_left_moves_one_column() {
    let arena = Arena::standard();
    let (position, _) = moved(5, 10, Action::ShiftLeft, &arena);
    assert_eq!(position, Position { x: 4, y: 10 });
}

#[test]
fn shift_left_at_left_edge_stays() {
    let arena = Arena::standard();
    let (position, _) = moved(0, 7, Action::ShiftLeft, &arena);
    assert_eq!(position, Position { x: 0, y: 7 });
}

#[test]
fn soft_drop_moves_one_row_down() {
    let arena = Arena::standard();
    let (position, _) = moved(5, 10, Action::SoftDrop, &arena);
    assert_eq!(position, Position { x: 5, y: 9 });
}

#[test]
fn hold_lifts_one_row() {
    let arena = Arena::standard();
    let (position, _) = moved(5, 10, Action::Hold, &arena);
    assert_eq!(position, Position { x: 5, y: 11 });
}

#[test]
fn hold_at_top_edge_stays() {
    let arena = Arena::standard();
    let (position, _) = moved(5, 24, Action::Hold, &arena);
    assert_eq!(position, Position { x: 5, y: 24 });
}

#[test]
fn inert_actions_move_nothing() {
    let arena = Arena::standard();
    for action in [
        Action::RotateClockwise,
        Action::RotateCounterClockwise,
        Action::HardDrop,
        Action::Idle,
    ] {
        let (position, _) = moved(3, 4, action, &arena);
        assert_eq!(position, Position { x: 3, y: 4 });
    }
}

#[test]
fn idle_leaves_every_cell_of_the_grid_unchanged() {
    let arena = Arena::standard();
    for x in 0..=ARENA_WIDTH {
        for y in 0..=ARENA_HEIGHT {
            let (position, _) = moved(x, y, Action::Idle, &arena);
            assert_eq!(position, Position { x, y });
        }
    }
}

#[test]
fn idle_brings_a_stray_position_back() {
    let arena = Arena::standard();
    let (position, _) = moved(-1, 30, Action::Idle, &arena);
    assert_eq!(position, Position { x: 0, y: 24 });
}

#[test]
fn action_is_idle_after_every_movement() {
    let arena = Arena::standard();
    for action in [
        Action::ShiftRight,
        Action::ShiftLeft,
        Action::RotateClockwise,
        Action::RotateCounterClockwise,
        Action::SoftDrop,
        Action::HardDrop,
        Action::Hold,
        Action::Idle,
    ] {
        let (_, left) = moved(5, 10, action, &arena);
        assert_eq!(left, Action::Idle);
    }
}

#[test]
fn far_positions_are_brought_to_the_nearest_edge() {
    let arena = Arena::standard();
    let (position, _) = moved(-300, 500, Action::ShiftLeft, &arena);
    assert_eq!(position, Position { x: 0, y: 24 });
    let (position, _) = moved(700, -2, Action::Hold, &arena);
    assert_eq!(position, Position { x: 10, y: 0 });
}

#[test]
fn extreme_coordinates_do_not_overflow() {
    let arena = Arena::standard();
    let (position, _) = moved(i16::MAX, i16::MAX, Action::ShiftRight, &arena);
    assert_eq!(position, Position { x: 10, y: 24 });
    let (position, _) = moved(i16::MIN, i16::MIN, Action::ShiftLeft, &arena);
    assert_eq!(position, Position { x: 0, y: 0 });
    let (position, _) = moved(i16::MIN, i16::MIN, Action::SoftDrop, &arena);
    assert_eq!(position, Position { x: 0, y: 0 });
    let (position, _) = moved(i16::MAX, i16::MAX, Action::Hold, &arena);
    assert_eq!(position, Position { x: 10, y: 24 });
}

#[test]
fn many_ticks_stay_on_the_grid() {
    let arena = Arena::new(3, 2).unwrap();
    let actions = [
        Action::ShiftRight,
        Action::ShiftRight,
        Action::ShiftRight,
        Action::ShiftRight,
        Action::Hold,
        Action::Hold,
        Action::Hold,
        Action::SoftDrop,
        Action::ShiftLeft,
        Action::ShiftLeft,
        Action::ShiftLeft,
        Action::ShiftLeft,
        Action::ShiftLeft,
        Action::SoftDrop,
        Action::SoftDrop,
        Action::SoftDrop,
    ];
    let mut piece = Tetrimino { action: Action::Idle };
    let mut position = Position { x: 1, y: 1 };
    let mut trace = Vec::new();
    for action in actions {
        piece.action = action;
        player_movement(&mut piece, &mut position, &arena);
        assert!(0 <= position.x && position.x <= 3);
        assert!(0 <= position.y && position.y <= 2);
        trace.push((position.x, position.y));
    }
    assert_eq!(
        trace,
        vec![
            (2, 1),
            (3, 1),
            (3, 1),
            (3, 1),
            (3, 2),
            (3, 2),
            (3, 2),
            (3, 1),
            (2, 1),
            (1, 1),
            (0, 1),
            (0, 1),
            (0, 1),
            (0, 0),
            (0, 0),
            (0, 0),
        ]
    );
}

#[test]
fn displacement_of_each_action() {
    assert_eq!(Action::ShiftRight.displacement(), (1, 0));
    assert_eq!(Action::ShiftLeft.displacement(), (-1, 0));
    assert_eq!(Action::SoftDrop.displacement(), (0, -1));
    assert_eq!(Action::Hold.displacement(), (0, 1));
    assert_eq!(Action::RotateClockwise.displacement(), (0, 0));
    assert_eq!(Action::RotateCounterClockwise.displacement(), (0, 0));
    assert_eq!(Action::HardDrop.displacement(), (0, 0));
    assert_eq!(Action::Idle.displacement(), (0, 0));
}

#[test]
fn arena_needs_positive_extents() {
    assert!(Arena::new(0, 24).is_none());
    assert!(Arena::new(10, 0).is_none());
    assert!(Arena::new(-1, 24).is_none());
    assert!(Arena::new(10, -5).is_none());
    assert!(Arena::new(0, 0).is_none());
    let arena = Arena::new(1, 1).unwrap();
    assert_eq!((arena.width(), arena.height()), (1, 1));
    let arena = Arena::new(i16::MAX, i16::MAX).unwrap();
    assert_eq!((arena.width(), arena.height()), (i16::MAX, i16::MAX));
}

#[test]
fn standard_arena_is_ten_by_twenty_four() {
    let arena = Arena::standard();
    assert_eq!((arena.width(), arena.height()), (10, 24));
    assert_eq!((ARENA_WIDTH, ARENA_HEIGHT), (10, 24));
}

#[test]
fn one_cell_arena_keeps_both_edges() {
    let arena = Arena::new(1, 1).unwrap();
    let (position, _) = moved(0, 0, Action::ShiftRight, &arena);
    assert_eq!(position, Position { x: 1, y: 0 });
    let (position, _) = moved(1, 0, Action::ShiftRight, &arena);
    assert_eq!(position, Position { x: 1, y: 0 });
    let (position, _) = moved(1, 1, Action::Hold, &arena);
    assert_eq!(position, Position { x: 1, y: 1 });
}

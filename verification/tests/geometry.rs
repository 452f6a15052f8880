use sprite_demo::geometry::{Position, Rect, COORD_MAX, COORD_MIN, SIZE_MAX};

#[test]
fn the_bounds_are_half_the_i32_range() {
    assert_eq!(COORD_MAX, i32::MAX / 2);
    assert_eq!(COORD_MIN, i32::MIN / 2);
    assert_eq!(SIZE_MAX, i32::MAX as u32 / 2);
}

#[test]
fn a_position_in_bounds_is_kept() {
    assert_eq!(Position::new(0, 0), Position { x: 0, y: 0 });
    assert_eq!(Position::new(-7, 12), Position { x: -7, y: 12 });
    assert_eq!(Position::new(COORD_MAX, COORD_MIN), Position { x: COORD_MAX, y: COORD_MIN });
}

#[test]
fn a_position_out_of_bounds_is_clamped() {
    assert_eq!(Position::new(i32::MAX, i32::MIN), Position { x: COORD_MAX, y: COORD_MIN });
    assert_eq!(
        Position::new(COORD_MAX + 1, COORD_MIN - 1),
        Position { x: COORD_MAX, y: COORD_MIN }
    );
    assert_eq!(Position::new(i32::MIN, i32::MAX), Position { x: COORD_MIN, y: COORD_MAX });
}

#[test]
fn offset_adds() {
    assert_eq!(Position::new(1, 2).offset(10, -20), Position { x: 11, y: -18 });
    assert_eq!(Position::new(1, 2).offset(0, 0), Position { x: 1, y: 2 });
}

#[test]
fn offset_saturates() {
    assert_eq!(
        Position::new(COORD_MAX, COORD_MIN).offset(1, -1),
        Position { x: COORD_MAX, y: COORD_MIN }
    );
    assert_eq!(
        Position::new(5, 5).offset(i32::MAX, i32::MIN),
        Position { x: COORD_MAX, y: COORD_MIN }
    );
    assert_eq!(
        Position::new(COORD_MAX, COORD_MIN).offset(i32::MAX, i32::MIN),
        Position { x: COORD_MAX, y: COORD_MIN }
    );
    assert_eq!(
        Position::new(COORD_MAX, COORD_MIN).offset(-1, 1),
        Position { x: COORD_MAX - 1, y: COORD_MIN + 1 }
    );
    assert_eq!(
        Position::new(COORD_MAX, COORD_MIN).offset(i32::MIN, i32::MAX),
        Position { x: COORD_MIN, y: COORD_MAX }
    );
}

#[test]
fn offset_of_a_position_built_out_of_bounds() {
    let far = Position { x: i32::MAX, y: i32::MIN };
    assert_eq!(far.offset(i32::MAX, i32::MIN), Position { x: COORD_MAX, y: COORD_MIN });
    assert_eq!(far.offset(-i32::MAX, i32::MAX), Position { x: 0, y: -1 });
}

#[test]
fn a_rect_keeps_ordinary_values() {
    assert_eq!(Rect::new(0, 0, 26, 36), Rect { x: 0, y: 0, width: 26, height: 36 });
    assert_eq!(Rect::new(-5, 7, 1, SIZE_MAX), Rect { x: -5, y: 7, width: 1, height: SIZE_MAX });
}

#[test]
fn a_rect_is_never_empty() {
    assert_eq!(Rect::new(3, 4, 0, 0), Rect { x: 3, y: 4, width: 1, height: 1 });
    assert_eq!(
        Rect::from_center(Position::new(3, 4), 0, 0),
        Rect { x: 3, y: 4, width: 1, height: 1 }
    );
}

#[test]
fn a_rect_is_clamped() {
    assert_eq!(
        Rect::new(i32::MAX, i32::MIN, u32::MAX, SIZE_MAX + 1),
        Rect { x: COORD_MAX, y: COORD_MIN, width: SIZE_MAX, height: SIZE_MAX }
    );
}

#[test]
fn from_center_puts_the_corner_half_the_size_away() {
    assert_eq!(
        Rect::from_center(Position::new(400, 300), 26, 36),
        Rect { x: 387, y: 282, width: 26, height: 36 }
    );
    assert_eq!(
        Rect::from_center(Position::new(0, 0), 5, 7),
        Rect { x: -2, y: -3, width: 5, height: 7 }
    );
    assert_eq!(
        Rect::from_center(Position::new(10, 10), 1, 2),
        Rect { x: 10, y: 9, width: 1, height: 2 }
    );
}

#[test]
fn from_center_saturates() {
    assert_eq!(
        Rect::from_center(Position::new(COORD_MIN, COORD_MIN), 10, 20),
        Rect { x: COORD_MIN, y: COORD_MIN, width: 10, height: 20 }
    );
    assert_eq!(
        Rect::from_center(Position { x: i32::MAX, y: i32::MIN }, u32::MAX, 2),
        Rect { x: COORD_MAX - (SIZE_MAX / 2) as i32, y: COORD_MIN, width: SIZE_MAX, height: 2 }
    );
    assert_eq!(
        Rect::from_center(Position::new(0, COORD_MAX), u32::MAX, 4),
        Rect { x: -536_870_911, y: COORD_MAX - 2, width: SIZE_MAX, height: 4 }
    );
}

use snake::snake::{Direction, Segment, Snake};

#[test]
fn start_pose_is_the_fixed_four_segments() {
    let s = Snake::start_pose();
    assert_eq!(s.length(), 4);
    assert_eq!(s.segs[0], Segment { x: 6, y: 10, direction: Direction::Right });
    assert_eq!(s.segs[1], Segment { x: 4, y: 10, direction: Direction::Right });
    assert_eq!(s.segs[2], Segment { x: 2, y: 10, direction: Direction::Right });
    assert_eq!(s.segs[3], Segment { x: 4, y: 4, direction: Direction::Right });
}

#[test]
fn advance_shifts_body_and_steps_head() {
    let mut s = Snake::start_pose();
    let wrapped = s.advance();
    assert!(!wrapped);
    assert_eq!(s.segs[0], Segment { x: 8, y: 10, direction: Direction::Right });
    assert_eq!(s.segs[1], Segment { x: 6, y: 10, direction: Direction::Right });
    assert_eq!(s.segs[2], Segment { x: 4, y: 10, direction: Direction::Right });
    assert_eq!(s.segs[3], Segment { x: 2, y: 10, direction: Direction::Right });
}

#[test]
fn vertical_steps_move_one_row() {
    let mut s = Snake::start_pose();
    s.turn(Direction::Up);
    let wrapped = s.advance();
    assert!(!wrapped);
    assert_eq!(s.segs[0], Segment { x: 6, y: 9, direction: Direction::Up });
}

#[test]
fn turn_rejects_repeat_and_reversal() {
    let mut s = Snake::start_pose();
    s.turn(Direction::Right);
    assert_eq!(s.segs[0].direction, Direction::Right);
    s.turn(Direction::Left);
    assert_eq!(s.segs[0].direction, Direction::Right);
    s.turn(Direction::Up);
    assert_eq!(s.segs[0].direction, Direction::Up);
    s.turn(Direction::Down);
    assert_eq!(s.segs[0].direction, Direction::Up);
    s.turn(Direction::Left);
    assert_eq!(s.segs[0].direction, Direction::Left);
}

#[test]
fn direction_codes_sum_to_the_forbidden_pairs() {
    assert_eq!(Direction::Left.to_int(), 1);
    assert_eq!(Direction::Right.to_int(), 2);
    assert_eq!(Direction::Up.to_int(), 3);
    assert_eq!(Direction::Down.to_int(), 4);
}

#[test]
fn self_collision_sees_inner_segments_only() {
    let mut s = Snake::start_pose();
    assert!(!s.self_collision());
    // Head placed on segment index 1: a collision.
    s.segs[0] = Segment { x: 4, y: 10, direction: Direction::Right };
    assert!(s.self_collision());
    // Head placed on the last segment only: not a collision, that slot is
    // about to be vacated.
    s.segs[0] = Segment { x: 4, y: 4, direction: Direction::Right };
    s.segs[1] = Segment { x: 6, y: 10, direction: Direction::Right };
    s.segs[2] = Segment { x: 8, y: 10, direction: Direction::Right };
    assert!(!s.self_collision());
}

#[test]
fn grow_duplicates_the_tail() {
    let mut s = Snake::start_pose();
    s.grow();
    assert_eq!(s.length(), 5);
    assert_eq!(s.segs[4], s.segs[3]);
}

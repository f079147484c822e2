use cube_solver::cube::{Cube, BL, BR, GREEN, ORANGE, RED, TL, TR, WHITE, YELLOW, BLUE};
use cube_solver::goal::{ending_condition, match_corner};
use cube_solver::render::solution_to_string;
use cube_solver::search::{check_rotation, find_solution, Move, Turn};

#[test]
fn identity_satisfies_the_goal() {
    let c = Cube::identity();
    assert!(ending_condition(&c));
}

#[test]
fn goal_fails_when_yellow_face_is_disturbed() {
    let mut c = Cube::identity();
    c.set_square(YELLOW, TL, WHITE);
    assert!(!ending_condition(&c));
}

#[test]
fn goal_fails_when_green_bottom_row_is_disturbed() {
    let mut c = Cube::identity();
    c.set_square(GREEN, BR, RED);
    assert!(!ending_condition(&c));
}

#[test]
fn goal_accepts_a_rotated_corner_triple() {
    // The corner at (green TL, white TL, orange BR) expects the colors
    // {green, white, orange}; assign them cyclically shifted.
    let mut c = Cube::identity();
    c.set_square(GREEN, TL, WHITE);
    c.set_square(WHITE, TL, ORANGE);
    c.set_square(ORANGE, BR, GREEN);
    assert!(ending_condition(&c));
    // The other arrangement too.
    let mut d = Cube::identity();
    d.set_square(GREEN, TL, ORANGE);
    d.set_square(WHITE, TL, GREEN);
    d.set_square(ORANGE, BR, WHITE);
    assert!(ending_condition(&d));
}

#[test]
fn goal_rejects_a_substituted_corner_color() {
    let mut c = Cube::identity();
    c.set_square(GREEN, TL, RED);
    assert!(!ending_condition(&c));
    let mut d = Cube::identity();
    d.set_square(ORANGE, BR, YELLOW);
    assert!(!ending_condition(&d));
}

#[test]
fn match_corner_is_permutation_invariant() {
    let mut c = Cube::identity();
    c.set_square(GREEN, TR, RED);
    c.set_square(WHITE, BL, GREEN);
    c.set_square(RED, TR, WHITE);
    assert!(match_corner(&c, GREEN, WHITE, RED, TR, BL, TR, GREEN, WHITE, RED));
    assert!(match_corner(&c, GREEN, WHITE, RED, TR, BL, TR, RED, GREEN, WHITE));
    assert!(!match_corner(&c, GREEN, WHITE, RED, TR, BL, TR, BLUE, RED, WHITE));
}

#[test]
fn depth_zero_succeeds_exactly_on_goal_states() {
    let c = Cube::identity();
    let r = find_solution(&c, 0);
    assert_eq!(r, Some(Vec::new()));

    let mut d = Cube::identity();
    d.rotate_clockwise(YELLOW);
    // A yellow quarter turn leaves the yellow face monochrome but
    // disturbs the green bottom row, so the goal fails.
    assert!(!ending_condition(&d));
    assert_eq!(find_solution(&d, 0), None);
}

#[test]
fn identity_at_depth_zero_returns_the_empty_solution() {
    let c = Cube::identity();
    let r = find_solution(&c, 0).unwrap();
    assert!(r.is_empty());
    assert_eq!(solution_to_string(&r), "");
}

#[test]
fn one_clockwise_white_turn_is_solved_by_counterclockwise_white() {
    let mut c = Cube::identity();
    c.rotate_clockwise(WHITE);
    let r = find_solution(&c, 1).unwrap();
    assert_eq!(r, vec![Move { face: WHITE, turn: Turn::CounterClockwise }]);
    assert_eq!(solution_to_string(&r), "-white ");
}

#[test]
fn one_counterclockwise_green_turn_is_solved_by_clockwise_green() {
    let mut c = Cube::identity();
    c.rotate_counterclockwise(GREEN);
    let r = find_solution(&c, 1).unwrap();
    assert_eq!(r, vec![Move { face: GREEN, turn: Turn::Clockwise }]);
    assert_eq!(solution_to_string(&r), "+green ");
}

#[test]
fn half_turn_scramble_is_solved_by_a_half_turn() {
    let mut c = Cube::identity();
    c.rotate_180(RED);
    let r = find_solution(&c, 1).unwrap();
    assert_eq!(r, vec![Move { face: RED, turn: Turn::Half }]);
    assert_eq!(solution_to_string(&r), "=red ");
}

#[test]
fn search_is_deterministic() {
    let mut c = Cube::identity();
    c.rotate_clockwise(GREEN);
    c.rotate_180(BLUE);
    let r1 = find_solution(&c, 2);
    let r2 = find_solution(&c, 2);
    assert_eq!(r1, r2);
}

#[test]
fn two_turn_scramble_needs_depth_two() {
    let mut c = Cube::identity();
    c.rotate_clockwise(WHITE);
    c.rotate_clockwise(GREEN);
    assert_eq!(find_solution(&c, 1), None);
    let r = find_solution(&c, 2).unwrap();
    assert_eq!(r.len(), 2);
    // Applying the found solution reaches a goal state.
    let mut d = c.clone();
    for m in &r {
        match m.turn {
            Turn::Clockwise => d.rotate_clockwise(m.face),
            Turn::Half => d.rotate_180(m.face),
            Turn::CounterClockwise => d.rotate_counterclockwise(m.face),
        }
    }
    assert!(ending_condition(&d));
}

#[test]
fn check_rotation_reports_the_turn_kind_in_order() {
    // From a state one clockwise white turn away from solved, trying the
    // white face finds the counter-clockwise variant (third in order).
    let mut c = Cube::identity();
    c.rotate_clockwise(WHITE);
    let r = check_rotation::<0>(&c, 0).unwrap();
    assert_eq!(r, vec![Move { face: WHITE, turn: Turn::CounterClockwise }]);

    // From a state one counter-clockwise white turn away, the clockwise
    // variant comes first.
    let mut d = Cube::identity();
    d.rotate_counterclockwise(WHITE);
    let r2 = check_rotation::<0>(&d, 0).unwrap();
    assert_eq!(r2, vec![Move { face: WHITE, turn: Turn::Clockwise }]);
}

#[test]
fn search_respects_the_face_priority_order() {
    // Green is the first face in the priority order, and a state one
    // clockwise green turn away from solved is solved by the third turn
    // kind tried on it: counter-clockwise green comes back first.
    let mut c = Cube::identity();
    c.rotate_clockwise(GREEN);
    let r = find_solution(&c, 1).unwrap();
    assert_eq!(r, vec![Move { face: GREEN, turn: Turn::CounterClockwise }]);
}

use cube_solver::cube::{Cube, BLUE, GREEN, RED, WHITE, YELLOW};

fn snapshot(c: &Cube) -> Vec<u8> {
    let mut v = Vec::new();
    for f in 0..6u8 {
        for i in 0..8u8 {
            v.push(c.get_square(f, i));
        }
    }
    v
}

/// A state reached from the solved cube by a few turns, so the laws are
/// exercised away from the identity.
fn scrambled() -> Cube {
    let mut c = Cube::identity();
    c.rotate_clockwise(GREEN);
    c.rotate_180(RED);
    c.rotate_counterclockwise(BLUE);
    c.rotate_clockwise(YELLOW);
    c.rotate_clockwise(WHITE);
    c
}

#[test]
fn four_clockwise_turns_restore_every_face() {
    for face in 0..6u8 {
        let original = scrambled();
        let mut c = original.clone();
        for _ in 0..4 {
            c.rotate_clockwise(face);
        }
        assert_eq!(snapshot(&c), snapshot(&original));
    }
}

#[test]
fn four_counterclockwise_turns_restore_every_face() {
    for face in 0..6u8 {
        let original = scrambled();
        let mut c = original.clone();
        for _ in 0..4 {
            c.rotate_counterclockwise(face);
        }
        assert_eq!(snapshot(&c), snapshot(&original));
    }
}

#[test]
fn one_clockwise_turn_changes_the_state() {
    for face in 0..6u8 {
        let original = scrambled();
        let mut c = original.clone();
        c.rotate_clockwise(face);
        assert_ne!(snapshot(&c), snapshot(&original));
    }
}

#[test]
fn clockwise_then_counterclockwise_restores() {
    for face in 0..6u8 {
        let original = scrambled();
        let mut c = original.clone();
        c.rotate_clockwise(face);
        c.rotate_counterclockwise(face);
        assert_eq!(snapshot(&c), snapshot(&original));
    }
}

#[test]
fn counterclockwise_then_clockwise_restores() {
    for face in 0..6u8 {
        let original = scrambled();
        let mut c = original.clone();
        c.rotate_counterclockwise(face);
        c.rotate_clockwise(face);
        assert_eq!(snapshot(&c), snapshot(&original));
    }
}

#[test]
fn half_turn_equals_two_quarter_turns_either_way() {
    for face in 0..6u8 {
        let original = scrambled();

        let mut via_half = original.clone();
        via_half.rotate_180(face);

        let mut via_cw = original.clone();
        via_cw.rotate_clockwise(face);
        via_cw.rotate_clockwise(face);

        let mut via_ccw = original.clone();
        via_ccw.rotate_counterclockwise(face);
        via_ccw.rotate_counterclockwise(face);

        assert_eq!(snapshot(&via_half), snapshot(&via_cw));
        assert_eq!(snapshot(&via_half), snapshot(&via_ccw));
    }
}

#[test]
fn three_clockwise_turns_equal_one_counterclockwise() {
    for face in 0..6u8 {
        let original = scrambled();

        let mut via_three = original.clone();
        via_three.rotate_clockwise(face);
        via_three.rotate_clockwise(face);
        via_three.rotate_clockwise(face);

        let mut via_ccw = original.clone();
        via_ccw.rotate_counterclockwise(face);

        assert_eq!(snapshot(&via_three), snapshot(&via_ccw));
    }
}

#[test]
fn better_rotate_is_a_clockwise_turn() {
    let original = scrambled();
    let mut a = original.clone();
    a.better_rotate::<2>();
    let mut b = original.clone();
    b.rotate_clockwise(2);
    assert_eq!(snapshot(&a), snapshot(&b));
}

#[test]
fn rotation_preserves_the_multiset_of_colors() {
    for face in 0..6u8 {
        let mut c = scrambled();
        let mut counts_before = [0usize; 6];
        for x in snapshot(&c) {
            counts_before[x as usize] += 1;
        }
        c.rotate_clockwise(face);
        let mut counts_after = [0usize; 6];
        for x in snapshot(&c) {
            counts_after[x as usize] += 1;
        }
        assert_eq!(counts_before, counts_after);
    }
}

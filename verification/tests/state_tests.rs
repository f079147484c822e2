use cube_solver::cube::{Cube, BL, BM, BR, CL, CM, CR, GREEN, ORANGE, RED, TL, TM, TR, WHITE, YELLOW, BLUE};
use cube_solver::parse::{char_to_color, ParseError};
use cube_solver::render::{color_to_string, op_to_string, solution_to_string};
use cube_solver::search::{Move, Turn};

fn snapshot(c: &Cube) -> Vec<u8> {
    let mut v = Vec::new();
    for f in 0..6u8 {
        for i in 0..8u8 {
            v.push(c.get_square(f, i));
        }
    }
    v
}

#[test]
fn set_then_get_round_trip_every_coordinate() {
    for f in 0..6u8 {
        for i in 0..8u8 {
            for color in 0..6u8 {
                let mut c = Cube::identity();
                let before = snapshot(&c);
                c.set_square(f, i, color);
                assert_eq!(c.get_square(f, i), color);
                let after = snapshot(&c);
                for g in 0..6u8 {
                    for j in 0..8u8 {
                        if (g, j) != (f, i) {
                            let k = (g as usize) * 8 + (j as usize);
                            assert_eq!(after[k], before[k]);
                        }
                    }
                }
            }
        }
    }
}

#[test]
fn get_center_answers_base_color() {
    let c = Cube::identity();
    for f in 0..6u8 {
        assert_eq!(c.get_square(f, CM), f);
    }
}

#[test]
fn identity_is_monochrome() {
    let c = Cube::identity();
    for f in 0..6u8 {
        for i in 0..8u8 {
            assert_eq!(c.get_square(f, i), f);
        }
    }
}

#[test]
fn char_to_color_maps_the_six_symbols() {
    assert_eq!(char_to_color('w'), Some(WHITE));
    assert_eq!(char_to_color('g'), Some(GREEN));
    assert_eq!(char_to_color('r'), Some(RED));
    assert_eq!(char_to_color('y'), Some(YELLOW));
    assert_eq!(char_to_color('b'), Some(BLUE));
    assert_eq!(char_to_color('o'), Some(ORANGE));
    assert_eq!(char_to_color('x'), None);
    assert_eq!(char_to_color('W'), None);
}

fn identity_net() -> [&'static str; 18] {
    [
        "www", "www", "www",
        "ooo", "ggg", "rrr", "bbb",
        "ooo", "ggg", "rrr", "bbb",
        "ooo", "ggg", "rrr", "bbb",
        "yyy", "yyy", "yyy",
    ]
}

#[test]
fn parse_identity_net() {
    let c = Cube::parse_str(identity_net()).unwrap();
    for f in 0..6u8 {
        for i in 0..8u8 {
            assert_eq!(c.get_square(f, i), f);
        }
    }
}

#[test]
fn parse_rejects_bad_color_character() {
    let mut net = identity_net();
    net[0] = "wxw";
    assert_eq!(Cube::parse_str(net).unwrap_err(), ParseError::BadColor);
}

#[test]
fn parse_rejects_center_mismatch() {
    let mut net = identity_net();
    // group 1 is the white face's (TM, CM, BM) column: its middle
    // character is the white center.
    net[1] = "wgw";
    assert_eq!(Cube::parse_str(net).unwrap_err(), ParseError::CenterMismatch);
}

#[test]
fn parse_bad_color_wins_when_it_comes_first() {
    let mut net = identity_net();
    net[0] = "xww";
    net[1] = "wgw";
    assert_eq!(Cube::parse_str(net).unwrap_err(), ParseError::BadColor);
}

#[test]
fn parse_stores_a_scrambled_group() {
    let mut net = identity_net();
    // group 4 is the green face's top row (TL, TM, TR).
    net[4] = "ryb";
    let c = Cube::parse_str(net).unwrap();
    assert_eq!(c.get_square(GREEN, TL), RED);
    assert_eq!(c.get_square(GREEN, TM), YELLOW);
    assert_eq!(c.get_square(GREEN, TR), BLUE);
    assert_eq!(c.get_square(GREEN, CR), GREEN);
    assert_eq!(c.get_square(WHITE, TL), WHITE);
}

#[test]
fn color_names_render() {
    assert_eq!(color_to_string(WHITE), "white");
    assert_eq!(color_to_string(GREEN), "green");
    assert_eq!(color_to_string(RED), "red");
    assert_eq!(color_to_string(YELLOW), "yellow");
    assert_eq!(color_to_string(BLUE), "blue");
    assert_eq!(color_to_string(ORANGE), "orange");
    assert_eq!(color_to_string(9), "???");
}

#[test]
fn op_to_string_prepends_one_token() {
    let s = op_to_string("-", WHITE, String::from("rest"));
    assert_eq!(s, "-white rest");
    let s2 = op_to_string("+", ORANGE, String::new());
    assert_eq!(s2, "+orange ");
}

#[test]
fn solution_renders_left_to_right() {
    let moves = vec![
        Move { face: WHITE, turn: Turn::CounterClockwise },
        Move { face: GREEN, turn: Turn::Half },
        Move { face: RED, turn: Turn::Clockwise },
    ];
    assert_eq!(solution_to_string(&moves), "-white =green +red ");
    let empty: Vec<Move> = Vec::new();
    assert_eq!(solution_to_string(&empty), "");
}

#[test]
fn slot_constants_are_distinct() {
    let all = [TL, TM, TR, CR, BR, BM, BL, CL];
    for i in 0..8 {
        for j in 0..8 {
            if i != j {
                assert_ne!(all[i], all[j]);
            }
        }
    }
    assert_eq!(CM, 0xFF);
}

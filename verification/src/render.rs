//! Move serialisation: a solution renders as a flat string of
//! operator+colorname tokens, each followed by one space. The operator
//! is `+` for a clockwise quarter turn, `=` for a half turn and `-` for
//! a counter-clockwise quarter turn.

use vstd::prelude::*;
use vstd::string::StringExecFns;
use crate::search::{Move, Turn};

verus! {

/// The rendered name of a color; values outside the six colors render
/// as a placeholder.
pub open spec fn color_name(color: u8) -> Seq<char> {
    if color == 0 {
        "white"@
    } else if color == 1 {
        "green"@
    } else if color == 2 {
        "red"@
    } else if color == 3 {
        "yellow"@
    } else if color == 4 {
        "blue"@
    } else if color == 5 {
        "orange"@
    } else {
        "???"@
    }
}

/// The one-character operator of a turn kind.
pub open spec fn op_str(turn: Turn) -> Seq<char> {
    match turn {
        Turn::Clockwise => "+"@,
        Turn::Half => "="@,
        Turn::CounterClockwise => "-"@,
    }
}

/// One rendered move: operator, color name, one space.
pub open spec fn move_str(m: Move) -> Seq<char> {
    op_str(m.turn) + color_name(m.face) + " "@
}

/// A rendered solution: its moves rendered left to right.
pub open spec fn solution_str(s: Seq<Move>) -> Seq<char>
    decreases s.len(),
{
    if s.len() == 0 {
        Seq::<char>::empty()
    } else {
        move_str(s[0]) + solution_str(s.drop_first())
    }
}

/// The color name of a face index.
pub fn color_to_string(color: u8) -> (r: &'static str)
    ensures
        r@ == color_name(color),
{
    match color {
        0 => "white",
        1 => "green",
        2 => "red",
        3 => "yellow",
        4 => "blue",
        5 => "orange",
        _ => "???",
    }
}

/// Prepends one rendered token — operator, color name, one space — to an
/// already-rendered remainder.
pub fn op_to_string(op: &str, color: u8, append: String) -> (r: String)
    ensures
        r@ == op@ + color_name(color) + " "@ + append@,
{
    let mut out = String::new();
    out.append(op);
    out.append(color_to_string(color));
    out.append(" ");
    out.append(append.as_str());
    proof {
        assert(out@ =~= op@ + color_name(color) + " "@ + append@);
    }
    out
}

/// Renders a whole solution, one operator+colorname token per move.
pub fn solution_to_string(moves: &Vec<Move>) -> (r: String)
    ensures
        r@ == solution_str(moves@),
{
    let mut out = String::new();
    let mut i: usize = moves.len();
    while i > 0
        invariant
            i <= moves@.len(),
            out@ == solution_str(moves@.skip(i as int)),
        decreases i,
    {
        i = i - 1;
        let m = moves[i];
        let op = match m.turn {
            Turn::Clockwise => "+",
            Turn::Half => "=",
            Turn::CounterClockwise => "-",
        };
        out = op_to_string(op, m.face, out);
        proof {
            let s = moves@.skip(i as int);
            assert(s.drop_first() =~= moves@.skip(i as int + 1));
            assert(out@ =~= move_str(s[0]) + solution_str(s.drop_first()));
        }
    }
    proof {
        assert(moves@.skip(0) =~= moves@);
    }
    out
}

} // verus!

//! Construction of a cube state from a textual net: eighteen groups of
//! three color characters, laid out per a fixed geometric table mapping
//! each character to a (face, slot) coordinate. Center characters are
//! never stored; they must agree with their face's fixed base color.

use vstd::prelude::*;
use crate::cube::{Cube, CM};

verus! {

/// Why a textual net is rejected.
#[derive(Clone, Copy, PartialEq, Eq, Structural, Debug)]
pub enum ParseError {
    /// A character outside the six recognised color symbols.
    BadColor,
    /// A center character that disagrees with its face's fixed color.
    CenterMismatch,
}

/// The color denoted by a net character, if any.
pub open spec fn spec_char_color(c: char) -> Option<u8> {
    if c == 'w' {
        Some(0u8)
    } else if c == 'o' {
        Some(5u8)
    } else if c == 'g' {
        Some(1u8)
    } else if c == 'r' {
        Some(2u8)
    } else if c == 'b' {
        Some(4u8)
    } else if c == 'y' {
        Some(3u8)
    } else {
        None
    }
}

/// The face each of the eighteen net groups belongs to.
pub open spec fn net_faces() -> Seq<u8> {
    seq![0u8, 0, 0, 5, 1, 2, 4, 5, 1, 2, 4, 5, 1, 2, 4, 3, 3, 3]
}

/// The slot each of the 54 net characters addresses on its group's face,
/// flattened three per group; `CM` marks a center character.
pub open spec fn net_slots() -> Seq<u8> {
    seq![
        2u8, 3, 4, 1, CM, 5, 0, 7, 6,
        2, 3, 4, 0, 1, 2, 2, 3, 4, 4, 5, 6,
        1, CM, 5, 7, CM, 3, 1, CM, 5, 3, CM, 7,
        0, 7, 6, 6, 5, 4, 0, 7, 6, 2, 1, 0,
        6, 7, 0, 5, CM, 1, 4, 3, 2,
    ]
}

/// The character views of the eighteen net groups.
pub open spec fn net_views(strs: [&str; 18]) -> Seq<Seq<char>> {
    strs@.map_values(|t: &str| t@)
}

/// What parsing decides from flat character position `k` on, given the
/// state accumulated so far: the first offending character, in scan
/// order, determines the error; otherwise every non-center character is
/// stored at its table coordinate.
pub open spec fn parse_from(chars: Seq<Seq<char>>, k: nat, acc: Seq<u8>) -> Result<
    Seq<u8>,
    ParseError,
>
    decreases 54 - k,
{
    if k >= 54 {
        Ok(acc)
    } else {
        let co = spec_char_color(chars[k as int / 3][k as int % 3]);
        if co is None {
            Err(ParseError::BadColor)
        } else {
            let f = net_faces()[k as int / 3];
            let idx = net_slots()[k as int];
            if idx == CM {
                if co->0 == f {
                    parse_from(chars, k + 1, acc)
                } else {
                    Err(ParseError::CenterMismatch)
                }
            } else {
                parse_from(chars, k + 1, acc.update(f as int * 8 + idx as int, co->0))
            }
        }
    }
}

/// What parsing a whole net decides, starting from the blank state.
pub open spec fn parse_spec(chars: Seq<Seq<char>>) -> Result<Seq<u8>, ParseError> {
    parse_from(chars, 0, Seq::new(48, |k: int| 0u8))
}

/// Maps a net character to its color; characters outside the six
/// recognised symbols map to nothing.
pub fn char_to_color(chr: char) -> (r: Option<u8>)
    ensures
        r == spec_char_color(chr),
{
    match chr {
        'w' => Some(0),
        'o' => Some(5),
        'g' => Some(1),
        'r' => Some(2),
        'b' => Some(4),
        'y' => Some(3),
        _ => None,
    }
}

/// The group-to-face table as runtime data.
fn net_faces_table() -> (t: Vec<u8>)
    ensures
        t@ == net_faces(),
{
    let mut t: Vec<u8> = Vec::new();
    t.push(0); t.push(0); t.push(0);
    t.push(5); t.push(1); t.push(2); t.push(4);
    t.push(5); t.push(1); t.push(2); t.push(4);
    t.push(5); t.push(1); t.push(2); t.push(4);
    t.push(3); t.push(3); t.push(3);
    proof {
        assert(t@ =~= net_faces());
    }
    t
}

/// The character-to-slot table as runtime data.
fn net_slots_table() -> (t: Vec<u8>)
    ensures
        t@ == net_slots(),
{
    let mut t: Vec<u8> = Vec::new();
    t.push(2); t.push(3); t.push(4);
    t.push(1); t.push(CM); t.push(5);
    t.push(0); t.push(7); t.push(6);
    t.push(2); t.push(3); t.push(4);
    t.push(0); t.push(1); t.push(2);
    t.push(2); t.push(3); t.push(4);
    t.push(4); t.push(5); t.push(6);
    t.push(1); t.push(CM); t.push(5);
    t.push(7); t.push(CM); t.push(3);
    t.push(1); t.push(CM); t.push(5);
    t.push(3); t.push(CM); t.push(7);
    t.push(0); t.push(7); t.push(6);
    t.push(6); t.push(5); t.push(4);
    t.push(0); t.push(7); t.push(6);
    t.push(2); t.push(1); t.push(0);
    t.push(6); t.push(7); t.push(0);
    t.push(5); t.push(CM); t.push(1);
    t.push(4); t.push(3); t.push(2);
    proof {
        assert(t@ =~= net_slots());
    }
    t
}

impl Cube {
    /// Builds a cube state from a flattened net of eighteen groups of
    /// three color characters. A character outside the six color symbols
    /// is rejected as `BadColor`; a center character that disagrees with
    /// its face's fixed color is rejected as `CenterMismatch`; the first
    /// offending character in scan order decides.
    pub fn parse_str(strs: [&str; 18]) -> (r: Result<Cube, ParseError>)
        requires
            forall|s: int| 0 <= s < 18 ==> strs[s]@.len() == 3,
        ensures
            match r {
                Ok(c) => parse_spec(net_views(strs)) == Ok::<Seq<u8>, ParseError>(c@) && c.wf(),
                Err(e) => parse_spec(net_views(strs)) == Err::<Seq<u8>, ParseError>(e),
            },
    {
        let faces = net_faces_table();
        let slots = net_slots_table();
        proof {
            assert forall|i: int| 0 <= i < 18 implies net_faces()[i] < 6 by {}
            assert forall|i: int| 0 <= i < 54 implies net_slots()[i] < 8 || net_slots()[i] == CM by {}
        }
        let mut cube = Cube::zeroed();
        let mut k: usize = 0;
        while k < 54
            invariant
                k <= 54,
                cube.wf(),
                faces@ == net_faces(),
                slots@ == net_slots(),
                forall|s: int| 0 <= s < 18 ==> strs[s]@.len() == 3,
                forall|i: int| 0 <= i < 18 ==> net_faces()[i] < 6,
                forall|i: int| 0 <= i < 54 ==> net_slots()[i] < 8 || net_slots()[i] == CM,
                parse_from(net_views(strs), k as nat, cube@) == parse_spec(net_views(strs)),
            decreases 54 - k,
        {
            let s = k / 3;
            let a = k % 3;
            let ch = strs[s].get_char(a);
            proof {
                assert(net_views(strs)[s as int] == strs@[s as int]@);
            }
            match char_to_color(ch) {
                None => {
                    return Err(ParseError::BadColor);
                },
                Some(color) => {
                    let idx = slots[k];
                    let face = faces[s];
                    if idx != CM {
                        cube.set_square(face, idx, color);
                    } else {
                        if color != face {
                            return Err(ParseError::CenterMismatch);
                        }
                    }
                },
            }
            k = k + 1;
        }
        Ok(cube)
    }
}

} // verus!

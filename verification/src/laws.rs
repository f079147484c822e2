//! Algebraic laws of the rotation engine, stated over views and proved
//! for every face and every state of the right shape.
//!
//! The proofs go through pointwise "action" lemmas: a quarter turn is a
//! permutation of the 48 slots, and each lemma lists, slot by slot, where
//! every color comes from. The laws then follow by chasing each slot
//! through the composed permutations.

use vstd::prelude::*;
use crate::cube::slot;
use crate::rotate::{cycle4, lemma_cycle4_action, lemma_rot_len, rot_cw, rot_ccw, rot_half};

verus! {

/// Is `k` one of the twelve cross-face slots moved by a turn whose
/// adjacent rows sit at ring indices (0,2,4,2)/(1,3,5,3)/(2,4,6,4) on the
/// four neighbouring faces `a`, `b`, `c`, `d`? (The pole-face pattern.)
spec fn cross_dest_x(a: int, b: int, c: int, d: int, k: int) -> bool {
    ||| k == slot(a, 0) ||| k == slot(b, 2) ||| k == slot(c, 4) ||| k == slot(d, 2)
    ||| k == slot(a, 1) ||| k == slot(b, 3) ||| k == slot(c, 5) ||| k == slot(d, 3)
    ||| k == slot(a, 2) ||| k == slot(b, 4) ||| k == slot(c, 6) ||| k == slot(d, 4)
}

/// The twelve cross-face slots for the other pattern, with rows at ring
/// indices (0,6,4,6)/(1,7,5,7)/(2,0,6,0).
spec fn cross_dest_y(a: int, b: int, c: int, d: int, k: int) -> bool {
    ||| k == slot(a, 0) ||| k == slot(b, 6) ||| k == slot(c, 4) ||| k == slot(d, 6)
    ||| k == slot(a, 1) ||| k == slot(b, 7) ||| k == slot(c, 5) ||| k == slot(d, 7)
    ||| k == slot(a, 2) ||| k == slot(b, 0) ||| k == slot(c, 6) ||| k == slot(d, 0)
}

/// Pointwise action on the cross-face rows for the first pattern.
spec fn cross_eqs_x(v: Seq<u8>, r: Seq<u8>, a: int, b: int, c: int, d: int) -> bool {
    &&& r[slot(a, 0)] == v[slot(d, 2)]
    &&& r[slot(b, 2)] == v[slot(a, 0)]
    &&& r[slot(c, 4)] == v[slot(b, 2)]
    &&& r[slot(d, 2)] == v[slot(c, 4)]
    &&& r[slot(a, 1)] == v[slot(d, 3)]
    &&& r[slot(b, 3)] == v[slot(a, 1)]
    &&& r[slot(c, 5)] == v[slot(b, 3)]
    &&& r[slot(d, 3)] == v[slot(c, 5)]
    &&& r[slot(a, 2)] == v[slot(d, 4)]
    &&& r[slot(b, 4)] == v[slot(a, 2)]
    &&& r[slot(c, 6)] == v[slot(b, 4)]
    &&& r[slot(d, 4)] == v[slot(c, 6)]
}

/// Pointwise action on the cross-face rows for the second pattern.
spec fn cross_eqs_y(v: Seq<u8>, r: Seq<u8>, a: int, b: int, c: int, d: int) -> bool {
    &&& r[slot(a, 0)] == v[slot(d, 6)]
    &&& r[slot(b, 6)] == v[slot(a, 0)]
    &&& r[slot(c, 4)] == v[slot(b, 6)]
    &&& r[slot(d, 6)] == v[slot(c, 4)]
    &&& r[slot(a, 1)] == v[slot(d, 7)]
    &&& r[slot(b, 7)] == v[slot(a, 1)]
    &&& r[slot(c, 5)] == v[slot(b, 7)]
    &&& r[slot(d, 7)] == v[slot(c, 5)]
    &&& r[slot(a, 2)] == v[slot(d, 0)]
    &&& r[slot(b, 0)] == v[slot(a, 2)]
    &&& r[slot(c, 6)] == v[slot(b, 0)]
    &&& r[slot(d, 0)] == v[slot(c, 6)]
}

/// Pointwise action of the clockwise within-face rings on face `f`.
spec fn face_cw_eqs(v: Seq<u8>, r: Seq<u8>, f: int) -> bool {
    &&& r[slot(f, 0)] == v[slot(f, 6)]
    &&& r[slot(f, 2)] == v[slot(f, 0)]
    &&& r[slot(f, 4)] == v[slot(f, 2)]
    &&& r[slot(f, 6)] == v[slot(f, 4)]
    &&& r[slot(f, 1)] == v[slot(f, 7)]
    &&& r[slot(f, 3)] == v[slot(f, 1)]
    &&& r[slot(f, 5)] == v[slot(f, 3)]
    &&& r[slot(f, 7)] == v[slot(f, 5)]
}

/// Pointwise action of the counter-clockwise within-face rings on face `f`.
spec fn face_ccw_eqs(v: Seq<u8>, r: Seq<u8>, f: int) -> bool {
    &&& r[slot(f, 0)] == v[slot(f, 2)]
    &&& r[slot(f, 2)] == v[slot(f, 4)]
    &&& r[slot(f, 4)] == v[slot(f, 6)]
    &&& r[slot(f, 6)] == v[slot(f, 0)]
    &&& r[slot(f, 1)] == v[slot(f, 3)]
    &&& r[slot(f, 3)] == v[slot(f, 5)]
    &&& r[slot(f, 5)] == v[slot(f, 7)]
    &&& r[slot(f, 7)] == v[slot(f, 1)]
}

/// The clockwise quarter turn, slot by slot.
proof fn lemma_cw_action(v: Seq<u8>, face: u8)
    requires
        v.len() == 48,
        face < 6,
    ensures
        rot_cw(v, face).len() == 48,
        face % 2 == 0 ==> {
            let f = face as int;
            &&& face_cw_eqs(v, rot_cw(v, face), f)
            &&& cross_eqs_x(v, rot_cw(v, face), (f + 1) % 6, (f + 5) % 6, (f + 4) % 6, (f + 2) % 6)
            &&& forall|k: int|
                0 <= k < 48 && k / 8 != f && !cross_dest_x(
                    (f + 1) % 6, (f + 5) % 6, (f + 4) % 6, (f + 2) % 6, k,
                ) ==> rot_cw(v, face)[k] == v[k]
        },
        face % 2 == 1 ==> {
            let f = face as int;
            &&& face_cw_eqs(v, rot_cw(v, face), f)
            &&& cross_eqs_y(v, rot_cw(v, face), (f + 1) % 6, (f + 2) % 6, (f + 4) % 6, (f + 5) % 6)
            &&& forall|k: int|
                0 <= k < 48 && k / 8 != f && !cross_dest_y(
                    (f + 1) % 6, (f + 2) % 6, (f + 4) % 6, (f + 5) % 6, k,
                ) ==> rot_cw(v, face)[k] == v[k]
        },
{
    let f = face as int;
    if face % 2 == 0 {
        let a = (f + 1) % 6;
        let b = (f + 5) % 6;
        let c = (f + 4) % 6;
        let d = (f + 2) % 6;
        assert(a != f && b != f && c != f && d != f);
        assert(a != b && a != c && a != d && b != c && b != d && c != d);
        let v1 = cycle4(v, slot(f, 0), slot(f, 2), slot(f, 4), slot(f, 6));
        let v2 = cycle4(v1, slot(f, 1), slot(f, 3), slot(f, 5), slot(f, 7));
        let v3 = cycle4(v2, slot(a, 0), slot(b, 2), slot(c, 4), slot(d, 2));
        let v4 = cycle4(v3, slot(a, 1), slot(b, 3), slot(c, 5), slot(d, 3));
        let v5 = cycle4(v4, slot(a, 2), slot(b, 4), slot(c, 6), slot(d, 4));
        assert(rot_cw(v, face) == v5);
        lemma_cycle4_action(v, slot(f, 0), slot(f, 2), slot(f, 4), slot(f, 6));
        lemma_cycle4_action(v1, slot(f, 1), slot(f, 3), slot(f, 5), slot(f, 7));
        lemma_cycle4_action(v2, slot(a, 0), slot(b, 2), slot(c, 4), slot(d, 2));
        lemma_cycle4_action(v3, slot(a, 1), slot(b, 3), slot(c, 5), slot(d, 3));
        lemma_cycle4_action(v4, slot(a, 2), slot(b, 4), slot(c, 6), slot(d, 4));
    } else {
        let a = (f + 1) % 6;
        let b = (f + 2) % 6;
        let c = (f + 4) % 6;
        let d = (f + 5) % 6;
        assert(a != f && b != f && c != f && d != f);
        assert(a != b && a != c && a != d && b != c && b != d && c != d);
        let v1 = cycle4(v, slot(f, 0), slot(f, 2), slot(f, 4), slot(f, 6));
        let v2 = cycle4(v1, slot(f, 1), slot(f, 3), slot(f, 5), slot(f, 7));
        let v3 = cycle4(v2, slot(a, 0), slot(b, 6), slot(c, 4), slot(d, 6));
        let v4 = cycle4(v3, slot(a, 1), slot(b, 7), slot(c, 5), slot(d, 7));
        let v5 = cycle4(v4, slot(a, 2), slot(b, 0), slot(c, 6), slot(d, 0));
        assert(rot_cw(v, face) == v5);
        lemma_cycle4_action(v, slot(f, 0), slot(f, 2), slot(f, 4), slot(f, 6));
        lemma_cycle4_action(v1, slot(f, 1), slot(f, 3), slot(f, 5), slot(f, 7));
        lemma_cycle4_action(v2, slot(a, 0), slot(b, 6), slot(c, 4), slot(d, 6));
        lemma_cycle4_action(v3, slot(a, 1), slot(b, 7), slot(c, 5), slot(d, 7));
        lemma_cycle4_action(v4, slot(a, 2), slot(b, 0), slot(c, 6), slot(d, 0));
    }
}

/// The counter-clockwise quarter turn, slot by slot.
proof fn lemma_ccw_action(v: Seq<u8>, face: u8)
    requires
        v.len() == 48,
        face < 6,
    ensures
        rot_ccw(v, face).len() == 48,
        face % 2 == 0 ==> {
            let f = face as int;
            &&& face_ccw_eqs(v, rot_ccw(v, face), f)
            &&& cross_eqs_x(v, rot_ccw(v, face), (f + 1) % 6, (f + 2) % 6, (f + 4) % 6, (f + 5) % 6)
            &&& forall|k: int|
                0 <= k < 48 && k / 8 != f && !cross_dest_x(
                    (f + 1) % 6, (f + 2) % 6, (f + 4) % 6, (f + 5) % 6, k,
                ) ==> rot_ccw(v, face)[k] == v[k]
        },
        face % 2 == 1 ==> {
            let f = face as int;
            &&& face_ccw_eqs(v, rot_ccw(v, face), f)
            &&& cross_eqs_y(v, rot_ccw(v, face), (f + 1) % 6, (f + 5) % 6, (f + 4) % 6, (f + 2) % 6)
            &&& forall|k: int|
                0 <= k < 48 && k / 8 != f && !cross_dest_y(
                    (f + 1) % 6, (f + 5) % 6, (f + 4) % 6, (f + 2) % 6, k,
                ) ==> rot_ccw(v, face)[k] == v[k]
        },
{
    let f = face as int;
    if face % 2 == 0 {
        let a = (f + 1) % 6;
        let b = (f + 2) % 6;
        let c = (f + 4) % 6;
        let d = (f + 5) % 6;
        assert(a != f && b != f && c != f && d != f);
        assert(a != b && a != c && a != d && b != c && b != d && c != d);
        let v1 = cycle4(v, slot(f, 2), slot(f, 0), slot(f, 6), slot(f, 4));
        let v2 = cycle4(v1, slot(f, 1), slot(f, 7), slot(f, 5), slot(f, 3));
        let v3 = cycle4(v2, slot(a, 0), slot(b, 2), slot(c, 4), slot(d, 2));
        let v4 = cycle4(v3, slot(a, 1), slot(b, 3), slot(c, 5), slot(d, 3));
        let v5 = cycle4(v4, slot(a, 2), slot(b, 4), slot(c, 6), slot(d, 4));
        assert(rot_ccw(v, face) == v5);
        lemma_cycle4_action(v, slot(f, 2), slot(f, 0), slot(f, 6), slot(f, 4));
        lemma_cycle4_action(v1, slot(f, 1), slot(f, 7), slot(f, 5), slot(f, 3));
        lemma_cycle4_action(v2, slot(a, 0), slot(b, 2), slot(c, 4), slot(d, 2));
        lemma_cycle4_action(v3, slot(a, 1), slot(b, 3), slot(c, 5), slot(d, 3));
        lemma_cycle4_action(v4, slot(a, 2), slot(b, 4), slot(c, 6), slot(d, 4));
    } else {
        let a = (f + 1) % 6;
        let b = (f + 5) % 6;
        let c = (f + 4) % 6;
        let d = (f + 2) % 6;
        assert(a != f && b != f && c != f && d != f);
        assert(a != b && a != c && a != d && b != c && b != d && c != d);
        let v1 = cycle4(v, slot(f, 2), slot(f, 0), slot(f, 6), slot(f, 4));
        let v2 = cycle4(v1, slot(f, 1), slot(f, 7), slot(f, 5), slot(f, 3));
        let v3 = cycle4(v2, slot(a, 0), slot(b, 6), slot(c, 4), slot(d, 6));
        let v4 = cycle4(v3, slot(a, 1), slot(b, 7), slot(c, 5), slot(d, 7));
        let v5 = cycle4(v4, slot(a, 2), slot(b, 0), slot(c, 6), slot(d, 0));
        assert(rot_ccw(v, face) == v5);
        lemma_cycle4_action(v, slot(f, 2), slot(f, 0), slot(f, 6), slot(f, 4));
        lemma_cycle4_action(v1, slot(f, 1), slot(f, 7), slot(f, 5), slot(f, 3));
        lemma_cycle4_action(v2, slot(a, 0), slot(b, 6), slot(c, 4), slot(d, 6));
        lemma_cycle4_action(v3, slot(a, 1), slot(b, 7), slot(c, 5), slot(d, 7));
        lemma_cycle4_action(v4, slot(a, 2), slot(b, 0), slot(c, 6), slot(d, 0));
    }
}

/// Order-4 law: four clockwise quarter turns of any face restore any
/// state to its pre-turn value.
pub proof fn lemma_cw_four_is_identity(v: Seq<u8>, face: u8)
    requires
        v.len() == 48,
        face < 6,
    ensures
        rot_cw(rot_cw(rot_cw(rot_cw(v, face), face), face), face) == v,
{
    let w1 = rot_cw(v, face);
    let w2 = rot_cw(w1, face);
    let w3 = rot_cw(w2, face);
    let w4 = rot_cw(w3, face);
    lemma_cw_action(v, face);
    lemma_cw_action(w1, face);
    lemma_cw_action(w2, face);
    lemma_cw_action(w3, face);
    assert(w4 =~= v);
}

/// Inverse law, one way: a clockwise quarter turn followed by a
/// counter-clockwise quarter turn of the same face restores the state.
pub proof fn lemma_cw_then_ccw_is_identity(v: Seq<u8>, face: u8)
    requires
        v.len() == 48,
        face < 6,
    ensures
        rot_ccw(rot_cw(v, face), face) == v,
{
    lemma_cw_action(v, face);
    lemma_ccw_action(rot_cw(v, face), face);
    assert(rot_ccw(rot_cw(v, face), face) =~= v);
}

/// Inverse law, the other way: counter-clockwise then clockwise on the
/// same face restores the state.
pub proof fn lemma_ccw_then_cw_is_identity(v: Seq<u8>, face: u8)
    requires
        v.len() == 48,
        face < 6,
    ensures
        rot_cw(rot_ccw(v, face), face) == v,
{
    lemma_ccw_action(v, face);
    lemma_cw_action(rot_ccw(v, face), face);
    assert(rot_cw(rot_ccw(v, face), face) =~= v);
}

/// Three clockwise quarter turns reach the same state as one
/// counter-clockwise quarter turn.
pub proof fn lemma_cw_three_is_ccw(v: Seq<u8>, face: u8)
    requires
        v.len() == 48,
        face < 6,
    ensures
        rot_cw(rot_cw(rot_cw(v, face), face), face) == rot_ccw(v, face),
{
    let w3 = rot_cw(rot_cw(rot_cw(v, face), face), face);
    lemma_rot_len(v, face);
    lemma_rot_len(rot_cw(v, face), face);
    lemma_rot_len(rot_cw(rot_cw(v, face), face), face);
    lemma_cw_four_is_identity(v, face);
    lemma_cw_then_ccw_is_identity(w3, face);
}

/// Half-turn equivalence: two clockwise quarter turns reach the same
/// state as two counter-clockwise quarter turns, and that state is what
/// the half turn is defined to reach.
pub proof fn lemma_half_turn_equivalence(v: Seq<u8>, face: u8)
    requires
        v.len() == 48,
        face < 6,
    ensures
        rot_ccw(rot_ccw(v, face), face) == rot_cw(rot_cw(v, face), face),
        rot_half(v, face) == rot_cw(rot_cw(v, face), face),
{
    lemma_rot_len(v, face);
    lemma_cw_three_is_ccw(v, face);
    lemma_cw_three_is_ccw(rot_ccw(v, face), face);
    lemma_cw_four_is_identity(v, face);
    assert(rot_ccw(rot_ccw(v, face), face) == rot_cw(rot_cw(rot_cw(rot_cw(rot_cw(rot_cw(v,
    face), face), face), face), face), face));
}

} // verus!

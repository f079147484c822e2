//! Search engine: depth-bounded exhaustive search over turn sequences.
//!
//! At each node the goal predicate is consulted first; on failure, and
//! with depth left, every face is tried in the fixed priority order
//! 1, 4, 2, 5, 0, 3, and for each face the three turn kinds in the fixed
//! order clockwise, half, counter-clockwise. The turn is applied
//! incrementally: one owned copy of the state is rotated clockwise once,
//! twice, three times, so the half-turn and counter-clockwise variants
//! reuse the already-rotated copy. The first success in this order is
//! returned, so the search is a function of the state and depth alone.
//!
//! The executable search is specified against `search_spec`, its exact
//! mathematical mirror.

use vstd::prelude::*;
use crate::cube::{identity_view, Cube};
use crate::goal::{ending_condition, is_goal, lemma_identity_is_goal};
use crate::rotate::rot_cw;

verus! {

/// A turn kind: quarter clockwise, half, or quarter counter-clockwise.
#[derive(Clone, Copy, PartialEq, Eq, Structural, Debug)]
pub enum Turn {
    Clockwise,
    Half,
    CounterClockwise,
}

/// One move of a solution: a turn kind applied to a face.
#[derive(Clone, Copy, PartialEq, Eq, Structural, Debug)]
pub struct Move {
    pub face: u8,
    pub turn: Turn,
}

/// What trying one face at one node returns: the first of the three turn
/// kinds, in the order clockwise, half, counter-clockwise, from which a
/// solution of the remaining depth exists. Each variant's state is one
/// more clockwise quarter turn of the last (three clockwise quarter
/// turns reach the counter-clockwise state).
pub open spec fn check_spec(v: Seq<u8>, face: u8, depth: nat) -> Option<Seq<Move>>
    decreases depth, 1int,
{
    let v1 = rot_cw(v, face);
    let r1 = search_spec(v1, depth);
    if r1 is Some {
        Some(seq![Move { face, turn: Turn::Clockwise }] + r1->0)
    } else {
        let v2 = rot_cw(v1, face);
        let r2 = search_spec(v2, depth);
        if r2 is Some {
            Some(seq![Move { face, turn: Turn::Half }] + r2->0)
        } else {
            let v3 = rot_cw(v2, face);
            let r3 = search_spec(v3, depth);
            if r3 is Some {
                Some(seq![Move { face, turn: Turn::CounterClockwise }] + r3->0)
            } else {
                None
            }
        }
    }
}

/// The result of the bounded exhaustive search: the first move sequence,
/// in the fixed priority order, that reaches a goal-satisfying state
/// within `depth` turns; `None` when no sequence of at most `depth`
/// turns reaches one.
pub open spec fn search_spec(v: Seq<u8>, depth: nat) -> Option<Seq<Move>>
    decreases depth, 0int,
{
    if is_goal(v) {
        Some(Seq::<Move>::empty())
    } else if depth == 0 {
        None
    } else if check_spec(v, 1, (depth - 1) as nat) is Some {
        check_spec(v, 1, (depth - 1) as nat)
    } else if check_spec(v, 4, (depth - 1) as nat) is Some {
        check_spec(v, 4, (depth - 1) as nat)
    } else if check_spec(v, 2, (depth - 1) as nat) is Some {
        check_spec(v, 2, (depth - 1) as nat)
    } else if check_spec(v, 5, (depth - 1) as nat) is Some {
        check_spec(v, 5, (depth - 1) as nat)
    } else if check_spec(v, 0, (depth - 1) as nat) is Some {
        check_spec(v, 0, (depth - 1) as nat)
    } else if check_spec(v, 3, (depth - 1) as nat) is Some {
        check_spec(v, 3, (depth - 1) as nat)
    } else {
        None
    }
}

/// Depth-bounded exhaustive search. Returns the first sequence of at
/// most `desired_depth` moves, in the fixed priority order, whose
/// application satisfies the goal predicate — the empty sequence when
/// the input already does — and `None` when no such sequence exists.
pub fn find_solution(cube: &Cube, desired_depth: usize) -> (r: Option<Vec<Move>>)
    requires
        cube.wf(),
    ensures
        (r is Some) == (search_spec(cube@, desired_depth as nat) is Some),
        r is Some ==> (r->0)@ == search_spec(cube@, desired_depth as nat)->0,
    decreases desired_depth, 0int,
{
    if ending_condition(cube) {
        return Some(Vec::new());
    }
    if desired_depth == 0 {
        return None;
    }
    if let Some(sol) = check_rotation::<1>(cube, desired_depth - 1) {
        return Some(sol);
    }
    if let Some(sol) = check_rotation::<4>(cube, desired_depth - 1) {
        return Some(sol);
    }
    if let Some(sol) = check_rotation::<2>(cube, desired_depth - 1) {
        return Some(sol);
    }
    if let Some(sol) = check_rotation::<5>(cube, desired_depth - 1) {
        return Some(sol);
    }
    if let Some(sol) = check_rotation::<0>(cube, desired_depth - 1) {
        return Some(sol);
    }
    if let Some(sol) = check_rotation::<3>(cube, desired_depth - 1) {
        return Some(sol);
    }
    None
}

/// Tries the three turn kinds of one face at one node, in the fixed
/// order clockwise, half, counter-clockwise, rotating one owned copy of
/// the state incrementally; on the first success the tried move is
/// prepended to the recursive solution.
pub fn check_rotation<const FACE: u8>(cube: &Cube, desired_depth: usize) -> (r: Option<Vec<Move>>)
    requires
        cube.wf(),
        FACE < 6,
    ensures
        (r is Some) == (check_spec(cube@, FACE, desired_depth as nat) is Some),
        r is Some ==> (r->0)@ == check_spec(cube@, FACE, desired_depth as nat)->0,
    decreases desired_depth, 1int,
{
    let mut new_cube = cube.clone();
    new_cube.better_rotate::<FACE>();
    if let Some(mut sol) = find_solution(&new_cube, desired_depth) {
        sol.insert(0, Move { face: FACE, turn: Turn::Clockwise });
        proof {
            assert(sol@ =~= seq![Move { face: FACE, turn: Turn::Clockwise }] + search_spec(
                rot_cw(cube@, FACE),
                desired_depth as nat,
            )->0);
        }
        return Some(sol);
    }
    new_cube.better_rotate::<FACE>();
    if let Some(mut sol) = find_solution(&new_cube, desired_depth) {
        sol.insert(0, Move { face: FACE, turn: Turn::Half });
        proof {
            assert(sol@ =~= seq![Move { face: FACE, turn: Turn::Half }] + search_spec(
                rot_cw(rot_cw(cube@, FACE), FACE),
                desired_depth as nat,
            )->0);
        }
        return Some(sol);
    }
    new_cube.better_rotate::<FACE>();
    if let Some(mut sol) = find_solution(&new_cube, desired_depth) {
        sol.insert(0, Move { face: FACE, turn: Turn::CounterClockwise });
        proof {
            assert(sol@ =~= seq![Move { face: FACE, turn: Turn::CounterClockwise }] + search_spec(
                rot_cw(rot_cw(rot_cw(cube@, FACE), FACE), FACE),
                desired_depth as nat,
            )->0);
        }
        return Some(sol);
    }
    None
}

/// Determinism: the search result is a function of the input state and
/// the depth bound alone, so two invocations on identical inputs return
/// identical results.
pub proof fn lemma_search_deterministic(v1: Seq<u8>, d1: nat, v2: Seq<u8>, d2: nat)
    requires
        v1 == v2,
        d1 == d2,
    ensures
        search_spec(v1, d1) == search_spec(v2, d2),
{
}

/// Depth-zero behavior: with depth bound zero the search returns the
/// empty move sequence exactly when the state already satisfies the
/// goal, and reports failure otherwise.
pub proof fn lemma_search_depth_zero(v: Seq<u8>)
    ensures
        is_goal(v) ==> search_spec(v, 0) == Some(Seq::<Move>::empty()),
        !is_goal(v) ==> search_spec(v, 0) is None,
{
}

/// The solved cube searched with depth bound zero succeeds with the
/// empty move sequence.
pub proof fn lemma_identity_depth_zero()
    ensures
        search_spec(identity_view(), 0) == Some(Seq::<Move>::empty()),
{
    lemma_identity_is_goal();
}

} // verus!

//! Goal predicate: the fixed, intentionally partial target condition.
//!
//! A state satisfies the goal when the yellow face exactly equals its
//! solved layout, the bottom row of the green face equals the solved
//! layout, and three designated physical corners each carry — as an
//! unordered set — the same three colors as a fixed reference triple.
//! The corner test accepts any arrangement of the three colors among the
//! three positions and rejects any substitution with a different color.

use vstd::prelude::*;
use crate::cube::{Cube, identity_view, slot, WHITE, GREEN, RED, YELLOW, BLUE, ORANGE, TL, TM, TR, CR, BR, BM, BL, CL};

verus! {

/// The unordered set of colors at three sticker coordinates, one per
/// face adjacent to a physical corner.
pub open spec fn corner_colors(
    v: Seq<u8>,
    f1: int,
    i1: int,
    f2: int,
    i2: int,
    f3: int,
    i3: int,
) -> Set<u8> {
    set![v[slot(f1, i1)], v[slot(f2, i2)], v[slot(f3, i3)]]
}

/// The partial-solve target: yellow face solved, green bottom row
/// solved, and the three reference corners present up to arrangement.
pub open spec fn is_goal(v: Seq<u8>) -> bool {
    &&& v[slot(YELLOW as int, TL as int)] == YELLOW
    &&& v[slot(YELLOW as int, TM as int)] == YELLOW
    &&& v[slot(YELLOW as int, TR as int)] == YELLOW
    &&& v[slot(YELLOW as int, CR as int)] == YELLOW
    &&& v[slot(YELLOW as int, BR as int)] == YELLOW
    &&& v[slot(YELLOW as int, BM as int)] == YELLOW
    &&& v[slot(YELLOW as int, BL as int)] == YELLOW
    &&& v[slot(YELLOW as int, CL as int)] == YELLOW
    &&& v[slot(GREEN as int, BR as int)] == GREEN
    &&& v[slot(GREEN as int, BM as int)] == GREEN
    &&& v[slot(GREEN as int, BL as int)] == GREEN
    &&& corner_colors(
        v, GREEN as int, TL as int, WHITE as int, TL as int, ORANGE as int, BR as int,
    ) == set![GREEN, WHITE, ORANGE]
    &&& corner_colors(
        v, GREEN as int, TR as int, WHITE as int, BL as int, RED as int, TR as int,
    ) == set![GREEN, WHITE, RED]
    &&& corner_colors(
        v, RED as int, BR as int, BLUE as int, BR as int, WHITE as int, BR as int,
    ) == set![RED, BLUE, WHITE]
}

/// The solved cube satisfies the goal: its yellow face and green bottom
/// row are monochrome in their own colors, and its three reference
/// corner triples trivially match themselves.
pub proof fn lemma_identity_is_goal()
    ensures
        is_goal(identity_view()),
{
    assert(corner_colors(
        identity_view(), GREEN as int, TL as int, WHITE as int, TL as int, ORANGE as int,
        BR as int,
    ) =~= set![GREEN, WHITE, ORANGE]);
    assert(corner_colors(
        identity_view(), GREEN as int, TR as int, WHITE as int, BL as int, RED as int, TR as int,
    ) =~= set![GREEN, WHITE, RED]);
    assert(corner_colors(
        identity_view(), RED as int, BR as int, BLUE as int, BR as int, WHITE as int, BR as int,
    ) =~= set![RED, BLUE, WHITE]);
}

/// The membership bitmask of a color triple: color `c` contributes bit
/// `1 << c`, so two triples have equal masks exactly when they hold the
/// same colors as unordered sets.
proof fn lemma_mask_member(a: u8, b: u8, c: u8, k: u8)
    requires
        a < 6,
        b < 6,
        c < 6,
        k < 6,
    ensures
        (((1u32 << a) | (1u32 << b) | (1u32 << c)) & (1u32 << k) != 0) <==> (k == a || k == b || k
            == c),
{
    assert((((1u32 << a) | (1u32 << b) | (1u32 << c)) & (1u32 << k) != 0) <==> (k == a || k == b
        || k == c)) by (bit_vector)
        requires
            a < 6 && b < 6 && c < 6 && k < 6,
    ;
}

/// Equality of membership bitmasks coincides with equality of the
/// unordered color sets.
proof fn lemma_mask_set_eq(a: u8, b: u8, c: u8, x: u8, y: u8, z: u8)
    requires
        a < 6,
        b < 6,
        c < 6,
        x < 6,
        y < 6,
        z < 6,
    ensures
        (((1u32 << a) | (1u32 << b) | (1u32 << c)) == ((1u32 << x) | (1u32 << y) | (1u32 << z)))
            <==> set![a, b, c] == set![x, y, z],
{
    let m1 = (1u32 << a) | (1u32 << b) | (1u32 << c);
    let m2 = (1u32 << x) | (1u32 << y) | (1u32 << z);
    if m1 == m2 {
        lemma_mask_member(a, b, c, a);
        lemma_mask_member(a, b, c, b);
        lemma_mask_member(a, b, c, c);
        lemma_mask_member(x, y, z, a);
        lemma_mask_member(x, y, z, b);
        lemma_mask_member(x, y, z, c);
        lemma_mask_member(a, b, c, x);
        lemma_mask_member(a, b, c, y);
        lemma_mask_member(a, b, c, z);
        lemma_mask_member(x, y, z, x);
        lemma_mask_member(x, y, z, y);
        lemma_mask_member(x, y, z, z);
        assert(set![a, b, c] =~= set![x, y, z]);
    }
    if set![a, b, c] == set![x, y, z] {
        assert(set![x, y, z].contains(a) && set![x, y, z].contains(b) && set![x, y, z].contains(c)
            && set![a, b, c].contains(x) && set![a, b, c].contains(y) && set![a, b, c].contains(
            z,
        ));
        assert(m1 == m2) by (bit_vector)
            requires
                (a == x || a == y || a == z) && (b == x || b == y || b == z) && (c == x || c == y
                    || c == z) && (x == a || x == b || x == c) && (y == a || y == b || y == c) && (z
                    == a || z == b || z == c) && m1 == ((1u32 << a) | (1u32 << b) | (1u32 << c))
                    && m2 == ((1u32 << x) | (1u32 << y) | (1u32 << z)),
        ;
    }
}

/// Permutation invariance of the corner match: however the three colors
/// of a triple are arranged among the three positions, the unordered set
/// — and so the goal predicate's corner test — is unchanged.
pub proof fn lemma_corner_match_permutation_invariant(c1: u8, c2: u8, c3: u8)
    ensures
        set![c1, c2, c3] == set![c2, c3, c1],
        set![c1, c2, c3] == set![c3, c1, c2],
        set![c1, c2, c3] == set![c2, c1, c3],
{
    assert(set![c1, c2, c3] =~= set![c2, c3, c1]);
    assert(set![c1, c2, c3] =~= set![c3, c1, c2]);
    assert(set![c1, c2, c3] =~= set![c2, c1, c3]);
}

/// Is `k` one of the nine sticker slots belonging to the three
/// designated corner triples?
pub open spec fn designated_corner_slot(k: int) -> bool {
    ||| k == slot(GREEN as int, TL as int) ||| k == slot(WHITE as int, TL as int) ||| k == slot(
        ORANGE as int, BR as int,
    )
    ||| k == slot(GREEN as int, TR as int) ||| k == slot(WHITE as int, BL as int) ||| k == slot(
        RED as int, TR as int,
    )
    ||| k == slot(RED as int, BR as int) ||| k == slot(BLUE as int, BR as int) ||| k == slot(
        WHITE as int, BR as int,
    )
}

/// The goal predicate is permutation-invariant on the designated
/// corners: a state that agrees with a goal-satisfying state everywhere
/// outside the nine designated corner slots, and whose three corner
/// triples hold the same colors as unordered sets — in particular, any
/// relabeling of which position holds which color — still satisfies the
/// goal.
pub proof fn lemma_goal_invariant_under_corner_relabeling(v: Seq<u8>, w: Seq<u8>)
    requires
        v.len() == 48,
        w.len() == 48,
        is_goal(v),
        forall|k: int| 0 <= k < 48 && !designated_corner_slot(k) ==> w[k] == v[k],
        corner_colors(
            w, GREEN as int, TL as int, WHITE as int, TL as int, ORANGE as int, BR as int,
        ) == corner_colors(
            v, GREEN as int, TL as int, WHITE as int, TL as int, ORANGE as int, BR as int,
        ),
        corner_colors(
            w, GREEN as int, TR as int, WHITE as int, BL as int, RED as int, TR as int,
        ) == corner_colors(
            v, GREEN as int, TR as int, WHITE as int, BL as int, RED as int, TR as int,
        ),
        corner_colors(
            w, RED as int, BR as int, BLUE as int, BR as int, WHITE as int, BR as int,
        ) == corner_colors(
            v, RED as int, BR as int, BLUE as int, BR as int, WHITE as int, BR as int,
        ),
    ensures
        is_goal(w),
{
    let y = YELLOW as int;
    let g = GREEN as int;
    assert forall|i: int| 0 <= i < 8 implies !designated_corner_slot(slot(y, i)) by {}
    assert(!designated_corner_slot(slot(g, BR as int)));
    assert(!designated_corner_slot(slot(g, BM as int)));
    assert(!designated_corner_slot(slot(g, BL as int)));
    assert(w[slot(y, TL as int)] == v[slot(y, TL as int)]);
    assert(w[slot(y, TM as int)] == v[slot(y, TM as int)]);
    assert(w[slot(y, TR as int)] == v[slot(y, TR as int)]);
    assert(w[slot(y, CR as int)] == v[slot(y, CR as int)]);
    assert(w[slot(y, BR as int)] == v[slot(y, BR as int)]);
    assert(w[slot(y, BM as int)] == v[slot(y, BM as int)]);
    assert(w[slot(y, BL as int)] == v[slot(y, BL as int)]);
    assert(w[slot(y, CL as int)] == v[slot(y, CL as int)]);
    assert(w[slot(g, BR as int)] == v[slot(g, BR as int)]);
    assert(w[slot(g, BM as int)] == v[slot(g, BM as int)]);
    assert(w[slot(g, BL as int)] == v[slot(g, BL as int)]);
}

/// Substituting, at any one position of a corner triple, a color from
/// outside the expected set fails the corner test.
pub proof fn lemma_corner_match_rejects_substitution(d: u8, b: u8, c: u8, x: u8, y: u8, z: u8)
    requires
        d != x,
        d != y,
        d != z,
    ensures
        set![d, b, c] != set![x, y, z],
{
    assert(set![d, b, c].contains(d));
    assert(!set![x, y, z].contains(d));
}

/// Does the corner at coordinates (`color1`,`index1`), (`color2`,`index2`),
/// (`color3`,`index3`) hold exactly the colors `value1`, `value2`,
/// `value3`, in any arrangement? Implemented by comparing membership
/// bitmasks.
pub fn match_corner(
    cube: &Cube,
    color1: u8,
    color2: u8,
    color3: u8,
    index1: u8,
    index2: u8,
    index3: u8,
    value1: u8,
    value2: u8,
    value3: u8,
) -> (r: bool)
    requires
        cube.wf(),
        color1 < 6 && color2 < 6 && color3 < 6,
        index1 < 8 && index2 < 8 && index3 < 8,
        value1 < 6 && value2 < 6 && value3 < 6,
    ensures
        r == (corner_colors(
            cube@,
            color1 as int,
            index1 as int,
            color2 as int,
            index2 as int,
            color3 as int,
            index3 as int,
        ) == set![value1, value2, value3]),
{
    let a = cube.get_square(color1, index1);
    let b = cube.get_square(color2, index2);
    let c = cube.get_square(color3, index3);
    proof {
        lemma_mask_set_eq(a, b, c, value1, value2, value3);
    }
    ((1u32 << a) | (1u32 << b) | (1u32 << c)) == ((1u32 << value1) | (1u32 << value2) | (1u32
        << value3))
}

/// The goal predicate on a cube: yellow face solved, green bottom row
/// solved, three reference corners present up to arrangement.
pub fn ending_condition(cube: &Cube) -> (r: bool)
    requires
        cube.wf(),
    ensures
        r == is_goal(cube@),
{
    cube.get_square(YELLOW, TL) == YELLOW && cube.get_square(YELLOW, TM) == YELLOW
        && cube.get_square(YELLOW, TR) == YELLOW && cube.get_square(YELLOW, CR) == YELLOW
        && cube.get_square(YELLOW, BR) == YELLOW && cube.get_square(YELLOW, BM) == YELLOW
        && cube.get_square(YELLOW, BL) == YELLOW && cube.get_square(YELLOW, CL) == YELLOW
        && cube.get_square(GREEN, BR) == GREEN && cube.get_square(GREEN, BM) == GREEN
        && cube.get_square(GREEN, BL) == GREEN && match_corner(
        cube, GREEN, WHITE, ORANGE, TL, TL, BR, GREEN, WHITE, ORANGE,
    ) && match_corner(cube, GREEN, WHITE, RED, TR, BL, TR, GREEN, WHITE, RED) && match_corner(
        cube, RED, BLUE, WHITE, BR, BR, BR, RED, BLUE, WHITE,
    )
}

} // verus!

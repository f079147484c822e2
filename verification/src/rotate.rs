//! Rotation engine: quarter- and half-turns of any face.
//!
//! Everything is built from one primitive, a cyclic shift of four sticker
//! slots (`cycle4` at the spec level, `rotate_across_faces` at the exec
//! level). A clockwise quarter turn cycles the turned face's own corner
//! ring and edge ring, then cycles the three adjacent sticker rows of the
//! four neighbouring faces. The neighbouring faces are found by fixed
//! offsets from the turned face, modulo six; the offsets are swapped
//! between even and odd faces because clockwise, viewed from the two
//! opposite poles of the cube, traces opposite adjacency cycles.

use vstd::prelude::*;
use crate::cube::{Cube, slot, TL, TM, TR, CR, BR, BM, BL, CL};

verus! {

/// One cyclic shift of four slots of the view: `p0` receives the color
/// previously at `p3`, `p1` that at `p0`, `p2` that at `p1`, `p3` that at
/// `p2`; every other slot is kept.
#[verifier::opaque]
pub open spec fn cycle4(v: Seq<u8>, p0: int, p1: int, p2: int, p3: int) -> Seq<u8> {
    v.update(p0, v[p3]).update(p1, v[p0]).update(p2, v[p1]).update(p3, v[p2])
}

/// What `cycle4` does, slot by slot: the four slots shift cyclically and
/// every other slot is kept.
pub proof fn lemma_cycle4_action(v: Seq<u8>, p0: int, p1: int, p2: int, p3: int)
    requires
        0 <= p0 < v.len(),
        0 <= p1 < v.len(),
        0 <= p2 < v.len(),
        0 <= p3 < v.len(),
        p0 != p1 && p0 != p2 && p0 != p3 && p1 != p2 && p1 != p3 && p2 != p3,
    ensures
        cycle4(v, p0, p1, p2, p3).len() == v.len(),
        cycle4(v, p0, p1, p2, p3)[p0] == v[p3],
        cycle4(v, p0, p1, p2, p3)[p1] == v[p0],
        cycle4(v, p0, p1, p2, p3)[p2] == v[p1],
        cycle4(v, p0, p1, p2, p3)[p3] == v[p2],
        forall|k: int|
            0 <= k < v.len() && k != p0 && k != p1 && k != p2 && k != p3 ==> cycle4(
                v, p0, p1, p2, p3,
            )[k] == v[k],
{
    reveal(cycle4);
}

/// The view after a clockwise quarter turn of `face`.
pub open spec fn rot_cw(v: Seq<u8>, face: u8) -> Seq<u8> {
    let f = face as int;
    let v1 = cycle4(v, slot(f, TL as int), slot(f, TR as int), slot(f, BR as int), slot(f, BL as int));
    let v2 = cycle4(v1, slot(f, TM as int), slot(f, CR as int), slot(f, BM as int), slot(f, CL as int));
    if face % 2 == 0 {
        let a = (f + 1) % 6;
        let b = (f + 5) % 6;
        let c = (f + 4) % 6;
        let d = (f + 2) % 6;
        let v3 = cycle4(v2, slot(a, TL as int), slot(b, TR as int), slot(c, BR as int), slot(d, TR as int));
        let v4 = cycle4(v3, slot(a, TM as int), slot(b, CR as int), slot(c, BM as int), slot(d, CR as int));
        cycle4(v4, slot(a, TR as int), slot(b, BR as int), slot(c, BL as int), slot(d, BR as int))
    } else {
        let a = (f + 1) % 6;
        let b = (f + 2) % 6;
        let c = (f + 4) % 6;
        let d = (f + 5) % 6;
        let v3 = cycle4(v2, slot(a, TL as int), slot(b, BL as int), slot(c, BR as int), slot(d, BL as int));
        let v4 = cycle4(v3, slot(a, TM as int), slot(b, CL as int), slot(c, BM as int), slot(d, CL as int));
        cycle4(v4, slot(a, TR as int), slot(b, TL as int), slot(c, BL as int), slot(d, TL as int))
    }
}

/// The view after a counter-clockwise quarter turn of `face`: the exact
/// mirror of `rot_cw` (rings cycled the other way, offsets swapped).
pub open spec fn rot_ccw(v: Seq<u8>, face: u8) -> Seq<u8> {
    let f = face as int;
    let v1 = cycle4(v, slot(f, TR as int), slot(f, TL as int), slot(f, BL as int), slot(f, BR as int));
    let v2 = cycle4(v1, slot(f, TM as int), slot(f, CL as int), slot(f, BM as int), slot(f, CR as int));
    if face % 2 == 0 {
        let a = (f + 1) % 6;
        let b = (f + 2) % 6;
        let c = (f + 4) % 6;
        let d = (f + 5) % 6;
        let v3 = cycle4(v2, slot(a, TL as int), slot(b, TR as int), slot(c, BR as int), slot(d, TR as int));
        let v4 = cycle4(v3, slot(a, TM as int), slot(b, CR as int), slot(c, BM as int), slot(d, CR as int));
        cycle4(v4, slot(a, TR as int), slot(b, BR as int), slot(c, BL as int), slot(d, BR as int))
    } else {
        let a = (f + 1) % 6;
        let b = (f + 5) % 6;
        let c = (f + 4) % 6;
        let d = (f + 2) % 6;
        let v3 = cycle4(v2, slot(a, TL as int), slot(b, BL as int), slot(c, BR as int), slot(d, BL as int));
        let v4 = cycle4(v3, slot(a, TM as int), slot(b, CL as int), slot(c, BM as int), slot(d, CL as int));
        cycle4(v4, slot(a, TR as int), slot(b, TL as int), slot(c, BL as int), slot(d, TL as int))
    }
}

/// Quarter turns keep the number of slots.
pub proof fn lemma_rot_len(v: Seq<u8>, face: u8)
    requires
        v.len() == 48,
        face < 6,
    ensures
        rot_cw(v, face).len() == v.len(),
        rot_ccw(v, face).len() == v.len(),
{
    let f = face as int;
    let a1 = (f + 1) % 6;
    let a2 = (f + 2) % 6;
    let a4 = (f + 4) % 6;
    let a5 = (f + 5) % 6;
    assert forall|w: Seq<u8>, p0: int, p1: int, p2: int, p3: int|
        w.len() == 48 && 0 <= p0 < 48 && 0 <= p1 < 48 && 0 <= p2 < 48 && 0 <= p3
            < 48 implies #[trigger] cycle4(w, p0, p1, p2, p3).len() == 48 by {
        reveal(cycle4);
    }
    assert(0 <= a1 < 6 && 0 <= a2 < 6 && 0 <= a4 < 6 && 0 <= a5 < 6);
    assert(rot_cw(v, face).len() == v.len());
    assert(rot_ccw(v, face).len() == v.len());
}

/// The view after a half turn of `face`: two clockwise quarter turns.
pub open spec fn rot_half(v: Seq<u8>, face: u8) -> Seq<u8> {
    rot_cw(rot_cw(v, face), face)
}

impl Cube {
    /// Cyclic shift across four faces: combines `base_face` with the four
    /// offsets modulo six to pick four concrete faces, then shifts the
    /// color at one slot of each along the cycle.
    pub fn rotate_across_faces(
        &mut self,
        base_face: u8,
        color_offsets: (u8, u8, u8, u8),
        index: (u8, u8, u8, u8),
    )
        requires
            old(self).wf(),
            base_face < 6,
            color_offsets.0 < 6 && color_offsets.1 < 6 && color_offsets.2 < 6 && color_offsets.3 < 6,
            index.0 < 8 && index.1 < 8 && index.2 < 8 && index.3 < 8,
        ensures
            final(self).wf(),
            final(self)@ == cycle4(
                old(self)@,
                slot((base_face as int + color_offsets.0 as int) % 6, index.0 as int),
                slot((base_face as int + color_offsets.1 as int) % 6, index.1 as int),
                slot((base_face as int + color_offsets.2 as int) % 6, index.2 as int),
                slot((base_face as int + color_offsets.3 as int) % 6, index.3 as int),
            ),
    {
        let f0 = (base_face + color_offsets.0) % 6;
        let f1 = (base_face + color_offsets.1) % 6;
        let f2 = (base_face + color_offsets.2) % 6;
        let f3 = (base_face + color_offsets.3) % 6;
        let o0 = self.get_square(f0, index.0);
        let o1 = self.get_square(f1, index.1);
        let o2 = self.get_square(f2, index.2);
        let o3 = self.get_square(f3, index.3);
        self.set_square(f0, index.0, o3);
        self.set_square(f1, index.1, o0);
        self.set_square(f2, index.2, o1);
        self.set_square(f3, index.3, o2);
        proof {
            reveal(cycle4);
        }
    }

    /// Cyclic shift of four slots within a single face.
    pub fn rotate_within_face(&mut self, face: u8, index: (u8, u8, u8, u8))
        requires
            old(self).wf(),
            face < 6,
            index.0 < 8 && index.1 < 8 && index.2 < 8 && index.3 < 8,
        ensures
            final(self).wf(),
            final(self)@ == cycle4(
                old(self)@,
                slot(face as int, index.0 as int),
                slot(face as int, index.1 as int),
                slot(face as int, index.2 as int),
                slot(face as int, index.3 as int),
            ),
    {
        self.rotate_across_faces(face, (0, 0, 0, 0), index);
    }

    /// Clockwise quarter turn of `face`.
    pub fn rotate_clockwise(&mut self, face: u8)
        requires
            old(self).wf(),
            face < 6,
        ensures
            final(self).wf(),
            final(self)@ == rot_cw(old(self)@, face),
    {
        self.rotate_within_face(face, (TL, TR, BR, BL));
        self.rotate_within_face(face, (TM, CR, BM, CL));
        if face % 2 == 0 {
            self.rotate_across_faces(face, (1, 5, 4, 2), (TL, TR, BR, TR));
            self.rotate_across_faces(face, (1, 5, 4, 2), (TM, CR, BM, CR));
            self.rotate_across_faces(face, (1, 5, 4, 2), (TR, BR, BL, BR));
        } else {
            self.rotate_across_faces(face, (1, 2, 4, 5), (TL, BL, BR, BL));
            self.rotate_across_faces(face, (1, 2, 4, 5), (TM, CL, BM, CL));
            self.rotate_across_faces(face, (1, 2, 4, 5), (TR, TL, BL, TL));
        }
    }

    /// Counter-clockwise quarter turn of `face`.
    pub fn rotate_counterclockwise(&mut self, face: u8)
        requires
            old(self).wf(),
            face < 6,
        ensures
            final(self).wf(),
            final(self)@ == rot_ccw(old(self)@, face),
    {
        self.rotate_within_face(face, (TR, TL, BL, BR));
        self.rotate_within_face(face, (TM, CL, BM, CR));
        if face % 2 == 0 {
            self.rotate_across_faces(face, (1, 2, 4, 5), (TL, TR, BR, TR));
            self.rotate_across_faces(face, (1, 2, 4, 5), (TM, CR, BM, CR));
            self.rotate_across_faces(face, (1, 2, 4, 5), (TR, BR, BL, BR));
        } else {
            self.rotate_across_faces(face, (1, 5, 4, 2), (TL, BL, BR, BL));
            self.rotate_across_faces(face, (1, 5, 4, 2), (TM, CL, BM, CL));
            self.rotate_across_faces(face, (1, 5, 4, 2), (TR, TL, BL, TL));
        }
    }

    /// Half turn of `face`: two clockwise quarter turns.
    pub fn rotate_180(&mut self, face: u8)
        requires
            old(self).wf(),
            face < 6,
        ensures
            final(self).wf(),
            final(self)@ == rot_half(old(self)@, face),
    {
        self.rotate_clockwise(face);
        self.rotate_clockwise(face);
    }

    /// Clockwise quarter turn with the face fixed at compile time.
    pub fn better_rotate<const FACE: u8>(&mut self)
        requires
            old(self).wf(),
            FACE < 6,
        ensures
            final(self).wf(),
            final(self)@ == rot_cw(old(self)@, FACE),
    {
        self.rotate_clockwise(FACE);
    }
}

} // verus!

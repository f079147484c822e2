//! State representation: the sticker layout of the whole puzzle.
//!
//! A cube holds, for each of the six faces, the colors of the eight
//! non-center sticker slots. The view of a cube is a flat sequence of
//! 48 colors, face-major: slot `i` of face `f` sits at index `f * 8 + i`.
//! A face's center sticker is never stored: its color is fixed to the
//! face's own base color.

use vstd::prelude::*;

verus! {

/// The six colors, which double as the six face indices.
pub const WHITE: u8 = 0;

pub const GREEN: u8 = 1;

pub const RED: u8 = 2;

pub const YELLOW: u8 = 3;

pub const BLUE: u8 = 4;

pub const ORANGE: u8 = 5;

/// The eight mutable sticker slots of a face, in clockwise ring order:
/// top-left, top-middle, top-right, center-right, bottom-right,
/// bottom-middle, bottom-left, center-left.
pub const TL: u8 = 0;

pub const TM: u8 = 1;

pub const TR: u8 = 2;

pub const CR: u8 = 3;

pub const BR: u8 = 4;

pub const BM: u8 = 5;

pub const BL: u8 = 6;

pub const CL: u8 = 7;

/// The distinguished center slot: immutable, always the face's base color.
pub const CM: u8 = 0xFF;

/// Flat view index of slot `i` on face `f`.
pub open spec fn slot(f: int, i: int) -> int {
    f * 8 + i
}

/// The fully solved configuration: every sticker on face `f` has color `f`.
pub open spec fn identity_view() -> Seq<u8> {
    Seq::new(48, |k: int| (k / 8) as u8)
}

/// Round trip of the accessors: storing a color at a mutable slot makes
/// that slot answer the stored color, and leaves every other slot — on
/// the same face and on the other faces — unchanged.
pub proof fn lemma_set_get_round_trip(v: Seq<u8>, f: int, i: int, c: u8, g: int, j: int)
    requires
        v.len() == 48,
        0 <= f < 6,
        0 <= i < 8,
        0 <= g < 6,
        0 <= j < 8,
    ensures
        v.update(slot(f, i), c)[slot(f, i)] == c,
        g != f || j != i ==> v.update(slot(f, i), c)[slot(g, j)] == v[slot(g, j)],
{
}

/// The full sticker layout of the puzzle.
#[derive(Debug)]
pub struct Cube {
    stickers: Vec<u8>,
}

impl View for Cube {
    type V = Seq<u8>;

    closed spec fn view(&self) -> Seq<u8> {
        self.stickers@
    }
}

impl Clone for Cube {
    /// Cube states are value objects: the search copies one per branch,
    /// and a copy carries the very same sticker layout.
    fn clone(&self) -> (c: Self)
        ensures
            c@ == self@,
    {
        let mut stickers: Vec<u8> = Vec::new();
        let mut k: usize = 0;
        while k < self.stickers.len()
            invariant
                k <= self.stickers@.len(),
                stickers@.len() == k as int,
                forall|j: int| 0 <= j < k as int ==> stickers@[j] == self.stickers@[j],
            decreases self.stickers@.len() - k,
        {
            stickers.push(self.stickers[k]);
            k = k + 1;
        }
        let c = Cube { stickers };
        proof {
            assert(c@ =~= self@);
        }
        c
    }
}

impl Cube {
    /// Well-formedness: 48 slots, each holding one of the six colors.
    pub open spec fn wf(&self) -> bool {
        &&& self@.len() == 48
        &&& forall|k: int| 0 <= k < 48 ==> self@[k] < 6
    }

    /// The solved cube: every face monochrome in its own color.
    pub fn identity() -> (c: Cube)
        ensures
            c.wf(),
            c@ == identity_view(),
    {
        let mut stickers: Vec<u8> = Vec::new();
        let mut f: u8 = 0;
        while f < 6
            invariant
                f <= 6,
                stickers@.len() == f as int * 8,
                forall|k: int| 0 <= k < stickers@.len() ==> stickers@[k] == k / 8,
            decreases 6 - f,
        {
            let mut i: u8 = 0;
            while i < 8
                invariant
                    f < 6,
                    i <= 8,
                    stickers@.len() == f as int * 8 + i as int,
                    forall|k: int| 0 <= k < stickers@.len() ==> stickers@[k] == k / 8,
                decreases 8 - i,
            {
                stickers.push(f);
                i = i + 1;
            }
            f = f + 1;
        }
        let c = Cube { stickers };
        proof {
            assert(c@ =~= identity_view());
        }
        c
    }

    /// A blank state for the net parser to fill: every slot white.
    pub(crate) fn zeroed() -> (c: Cube)
        ensures
            c.wf(),
            c@ == Seq::new(48, |k: int| 0u8),
    {
        let mut stickers: Vec<u8> = Vec::new();
        let mut k: usize = 0;
        while k < 48
            invariant
                k <= 48,
                stickers@.len() == k as int,
                forall|j: int| 0 <= j < k as int ==> stickers@[j] == 0u8,
            decreases 48 - k,
        {
            stickers.push(0);
            k = k + 1;
        }
        let c = Cube { stickers };
        proof {
            assert(c@ =~= Seq::new(48, |k: int| 0u8));
        }
        c
    }

    /// Reads the color at a slot. The eight mutable slots answer what is
    /// stored; the center slot is never stored and always answers the
    /// face's own base color.
    pub fn get_square(&self, face: u8, index: u8) -> (c: u8)
        requires
            self.wf(),
            face < 6,
            index < 8 || index == CM,
        ensures
            index < 8 ==> c == self@[slot(face as int, index as int)],
            index == CM ==> c == face,
            c < 6,
    {
        if index == CM {
            face
        } else {
            self.stickers[(face as usize) * 8 + (index as usize)]
        }
    }

    /// Overwrites the color at a mutable slot; every other slot is kept.
    /// The center slot is write-protected: it cannot be addressed here.
    pub fn set_square(&mut self, face: u8, index: u8, value: u8)
        requires
            old(self).wf(),
            face < 6,
            index < 8,
            value < 6,
        ensures
            final(self).wf(),
            final(self)@ == old(self)@.update(slot(face as int, index as int), value),
    {
        self.stickers[(face as usize) * 8 + (index as usize)] = value;
    }
}

} // verus!

//! One-dimensional collision intervals.
//!
//! A `CBox` is an axis-aligned interval described by a single signed
//! half-extent `x` in sub-pixel game units.  It is evaluated at an absolute
//! position by adding a caller-supplied offset: its two edges are `offset`
//! and `offset + x`, normalized by min/max before any comparison, so a
//! negative extent (produced by mirroring for the opposite facing) still
//! denotes a valid interval.

use vstd::prelude::*;

verus! {

/// Axis-aligned 1-D interval: one signed half-extent in sub-pixel units.
#[derive(Clone, Copy, PartialEq, Eq, Structural, Debug)]
pub struct CBox {
    pub x: i16,
}

/// Lower edge of the interval `b` placed at `offset`.
pub open spec fn edge_min(b: CBox, offset: int) -> int {
    if b.x < 0 {
        offset + b.x
    } else {
        offset
    }
}

/// Upper edge of the interval `b` placed at `offset`.
pub open spec fn edge_max(b: CBox, offset: int) -> int {
    if b.x < 0 {
        offset
    } else {
        offset + b.x
    }
}

/// The two placed intervals intersect strictly: touching edges do not
/// count as overlap, so zero-width adjacency is non-colliding.
pub open spec fn overlaps(a: CBox, oa: int, b: CBox, ob: int) -> bool {
    edge_min(a, oa) < edge_max(b, ob) && edge_min(b, ob) < edge_max(a, oa)
}

/// Signed push-back once overlap is confirmed: half the difference of the
/// two far edges, with the quotient truncated toward zero as the machine
/// division does.
pub open spec fn push_back(a: CBox, oa: int, b: CBox, ob: int) -> int {
    let diff = (a.x + oa) - (b.x + ob);
    if diff >= 0 {
        diff / 2
    } else {
        -((-diff) / 2)
    }
}

impl CBox {
    /// The fixed base collision interval shared by every move frame.
    pub fn collision() -> (r: CBox)
        ensures
            r.x == 125,
    {
        CBox { x: 125 }
    }

    /// The fixed default vulnerable-body interval.
    pub fn base_hurtbox() -> (r: CBox)
        ensures
            r.x == 158,
    {
        CBox { x: 158 }
    }

    /// An optional interval: present iff its extent is not zero.
    pub fn nonzero(x: i16) -> (r: Option<CBox>)
        ensures
            r == if x != 0 {
                Some(CBox { x })
            } else {
                None::<CBox>
            },
    {
        if x != 0 {
            Some(CBox { x })
        } else {
            None
        }
    }

    /// Strict intersection test of the two placed intervals.
    pub fn overlap(self, offsetx1: i16, other: CBox, offsetx2: i16) -> (r: bool)
        requires
            i16::MIN <= self.x + offsetx1 <= i16::MAX,
            i16::MIN <= other.x + offsetx2 <= i16::MAX,
        ensures
            r == overlaps(self, offsetx1 as int, other, offsetx2 as int),
    {
        let c1x1 = offsetx1;
        let c1x2 = self.x + offsetx1;
        let c2x1 = offsetx2;
        let c2x2 = other.x + offsetx2;
        let c1lo = if c1x1 <= c1x2 { c1x1 } else { c1x2 };
        let c1hi = if c1x1 <= c1x2 { c1x2 } else { c1x1 };
        let c2lo = if c2x1 <= c2x2 { c2x1 } else { c2x2 };
        let c2hi = if c2x1 <= c2x2 { c2x2 } else { c2x1 };

        if c1lo >= c2hi || c2lo >= c1hi {
            return false;
        }

        true
    }

    /// Symmetric position-correction amount between the two far edges.
    pub fn overlap_amount(&self, offsetx1: i16, other: CBox, offsetx2: i16) -> (r: i16)
        requires
            i16::MIN <= self.x + offsetx1 <= i16::MAX,
            i16::MIN <= other.x + offsetx2 <= i16::MAX,
            i16::MIN <= (self.x + offsetx1) - (other.x + offsetx2) <= i16::MAX,
        ensures
            r == push_back(*self, offsetx1 as int, other, offsetx2 as int),
    {
        let diff = (self.x + offsetx1) - (other.x + offsetx2);
        diff / 2
    }

    /// Mirror the interval for the combatant facing the other direction.
    pub fn negated(self) -> (r: CBox)
        requires
            self.x != i16::MIN,
        ensures
            r.x == -self.x,
    {
        CBox { x: -self.x }
    }

    /// Scale the extent by a signed factor.
    pub fn scaled(self, rhs: i16) -> (r: CBox)
        requires
            i16::MIN <= self.x * rhs <= i16::MAX,
        ensures
            r.x == self.x * rhs,
    {
        CBox { x: self.x * rhs }
    }
}

/// Overlap is symmetric in its two placed intervals.
pub proof fn lemma_overlap_symmetric(a: CBox, oa: int, b: CBox, ob: int)
    ensures
        overlaps(a, oa, b, ob) == overlaps(b, ob, a, oa),
{
}

/// An interval of non-zero extent overlaps itself at any shared position,
/// and a zero-width interval never overlaps anything, itself included.
pub proof fn lemma_overlap_self(a: CBox, o: int)
    ensures
        a.x != 0 ==> overlaps(a, o, a, o),
        a.x == 0 ==> !overlaps(a, o, a, o),
{
}

/// Two zero-width intervals never overlap, wherever they are placed.
pub proof fn lemma_zero_width_no_overlap(a: CBox, oa: int, b: CBox, ob: int)
    requires
        a.x == 0,
        b.x == 0,
    ensures
        !overlaps(a, oa, b, ob),
{
}

/// Exactly-adjacent intervals do not overlap: once the placed intervals
/// merely touch edge to edge, the strict test rejects them.
pub proof fn lemma_adjacent_no_overlap(a: CBox, oa: int, b: CBox, ob: int)
    requires
        edge_max(a, oa) == edge_min(b, ob) || edge_max(b, ob) == edge_min(a, oa),
    ensures
        !overlaps(a, oa, b, ob),
{
}

} // verus!

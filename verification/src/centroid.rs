//! The centroid calculator's verified half: selecting the positions whose
//! arithmetic mean places a label.
//!
//! Only the first ring — the outer boundary — counts; holes are ignored.
//! Positions with fewer than two components are skipped.  The mean itself is
//! rounding arithmetic and is left to the host; a polygon whose selection
//! comes up empty gets the fixed fallback position instead, with both
//! components at the zero bit pattern.

use vstd::prelude::*;
use crate::geometry::Coord;

verus! {

broadcast use vstd::seq::group_seq_axioms, vstd::std_specs::vec::group_vec_axioms;

/// The usable (x, y) pairs of one ring, in order.
pub open spec fn ring_pairs(ring: Seq<Coord>) -> Seq<(u64, u64)>
    decreases ring.len(),
{
    if ring.len() == 0 {
        Seq::empty()
    } else {
        let rest = ring_pairs(ring.drop_first());
        if ring[0]@.len() >= 2 {
            seq![(ring[0]@[0], ring[0]@[1])] + rest
        } else {
            rest
        }
    }
}

/// The positions that feed a polygon's centroid: the usable pairs of its
/// first ring; none when there is no first ring.
pub open spec fn spec_centroid_points(rings: Seq<Vec<Coord>>) -> Seq<(u64, u64)> {
    if rings.len() == 0 {
        Seq::empty()
    } else {
        ring_pairs(rings[0]@)
    }
}

/// Collects the positions that feed a polygon's centroid.
#[verifier::loop_isolation(false)]
pub fn centroid_points(rings: &Vec<Vec<Coord>>) -> (out: Vec<(u64, u64)>)
    ensures
        out@ == spec_centroid_points(rings@),
{
    let mut out: Vec<(u64, u64)> = Vec::new();
    if rings.len() == 0 {
        return out;
    }
    let ring = &rings[0];
    let mut i: usize = 0;
    proof {
        assert(ring@.subrange(0, ring@.len() as int) =~= ring@);
    }
    while i < ring.len()
        invariant
            i <= ring.len(),
            ring_pairs(ring@) == out@ + ring_pairs(ring@.subrange(i as int, ring@.len() as int)),
        decreases ring.len() - i,
    {
        proof {
            let tail = ring@.subrange(i as int, ring@.len() as int);
            assert(tail.drop_first() =~= ring@.subrange(i + 1 as int, ring@.len() as int));
        }
        let c = &ring[i];
        if c.len() >= 2 {
            let ghost rest = ring@.subrange(i + 1 as int, ring@.len() as int);
            let p = (c[0], c[1]);
            proof {
                assert(out@ + (seq![p] + ring_pairs(rest)) =~= (out@ + seq![p]) + ring_pairs(
                    rest,
                ));
                assert(out@.push(p) =~= out@ + seq![p]);
            }
            out.push(p);
        }
        i += 1;
    }
    proof {
        assert(ring_pairs(ring@.subrange(ring@.len() as int, ring@.len() as int))
            =~= Seq::<(u64, u64)>::empty());
        assert(out@ + Seq::<(u64, u64)>::empty() =~= out@);
    }
    out
}

} // verus!

//! The path builder: polygon ring coordinate sequences become SVG path-data
//! drawing commands, with the y component negated (the geographic y-up to
//! SVG y-down flip).
//!
//! Per ring: a move-to for the first usable position, a line-to for every
//! later one, then one explicit close-path — whether or not the input ring
//! already repeats its first position.  A ring with no usable position
//! contributes nothing.  Positions with fewer than two components are
//! skipped.

use vstd::prelude::*;
use crate::num::{spec_neg, neg_bits};
use crate::geometry::Coord;

verus! {

broadcast use vstd::seq::group_seq_axioms, vstd::std_specs::vec::group_vec_axioms;

/// One SVG path-data drawing command over binary64 bit patterns.
#[derive(Clone, Copy, PartialEq, Eq, Structural)]
pub enum PathCmd {
    MoveTo(u64, u64),
    LineTo(u64, u64),
    ClosePath,
}

/// The commands still to be emitted for the rest of a ring, given whether a
/// move-to has already been emitted for it.
pub open spec fn ring_cmds_from(ring: Seq<Coord>, started: bool) -> Seq<PathCmd>
    decreases ring.len(),
{
    if ring.len() == 0 {
        if started {
            seq![PathCmd::ClosePath]
        } else {
            Seq::empty()
        }
    } else {
        let c = ring[0];
        if c@.len() >= 2 {
            let cmd = if started {
                PathCmd::LineTo(c@[0], spec_neg(c@[1]))
            } else {
                PathCmd::MoveTo(c@[0], spec_neg(c@[1]))
            };
            seq![cmd] + ring_cmds_from(ring.drop_first(), true)
        } else {
            ring_cmds_from(ring.drop_first(), started)
        }
    }
}

/// The commands one ring contributes.
pub open spec fn ring_cmds(ring: Seq<Coord>) -> Seq<PathCmd> {
    ring_cmds_from(ring, false)
}

/// The commands a polygon's rings contribute, outer boundary first, each
/// ring independently closed.
pub open spec fn rings_cmds(rings: Seq<Vec<Coord>>) -> Seq<PathCmd>
    decreases rings.len(),
{
    if rings.len() == 0 {
        Seq::empty()
    } else {
        ring_cmds(rings[0]@) + rings_cmds(rings.drop_first())
    }
}

/// The commands a multi-polygon's constituent polygons contribute, in input
/// order.
pub open spec fn polygons_cmds(ps: Seq<Vec<Vec<Coord>>>) -> Seq<PathCmd>
    decreases ps.len(),
{
    if ps.len() == 0 {
        Seq::empty()
    } else {
        rings_cmds(ps[0]@) + polygons_cmds(ps.drop_first())
    }
}

/// A ring has something to draw exactly when some position has at least two
/// components.
pub open spec fn ring_has_point(ring: Seq<Coord>) -> bool {
    exists|i: int| 0 <= i < ring.len() && ring[i]@.len() >= 2
}

/// The commands one ring contributes, built into a fresh vector.
#[verifier::loop_isolation(false)]
fn build_ring_cmds(ring: &Vec<Coord>) -> (out: Vec<PathCmd>)
    ensures
        out@ == ring_cmds(ring@),
{
    let mut out: Vec<PathCmd> = Vec::new();
    let mut started = false;
    let mut i: usize = 0;
    proof {
        assert(ring@.subrange(0, ring@.len() as int) =~= ring@);
    }
    while i < ring.len()
        invariant
            i <= ring.len(),
            ring_cmds(ring@) == out@ + ring_cmds_from(
                ring@.subrange(i as int, ring@.len() as int),
                started,
            ),
        decreases ring.len() - i,
    {
        proof {
            let tail = ring@.subrange(i as int, ring@.len() as int);
            assert(tail.drop_first() =~= ring@.subrange(i + 1 as int, ring@.len() as int));
        }
        let c = &ring[i];
        if c.len() >= 2 {
            let ghost tail = ring@.subrange(i as int, ring@.len() as int);
            let ghost rest = ring@.subrange(i + 1 as int, ring@.len() as int);
            let cmd = if started {
                PathCmd::LineTo(c[0], neg_bits(c[1]))
            } else {
                PathCmd::MoveTo(c[0], neg_bits(c[1]))
            };
            proof {
                assert(ring_cmds_from(tail, started) =~= seq![cmd] + ring_cmds_from(rest, true));
                assert(out@ + (seq![cmd] + ring_cmds_from(rest, true)) =~= (out@ + seq![cmd])
                    + ring_cmds_from(rest, true));
                assert(out@.push(cmd) =~= out@ + seq![cmd]);
            }
            out.push(cmd);
            started = true;
        }
        i += 1;
    }
    if started {
        proof {
            assert(out@.push(PathCmd::ClosePath) =~= out@ + seq![PathCmd::ClosePath]);
        }
        out.push(PathCmd::ClosePath);
    }
    out
}

/// Appends the commands of every ring of one polygon to the accumulated
/// path data.
#[verifier::loop_isolation(false)]
pub fn draw_polygon(data: &mut Vec<PathCmd>, rings: &Vec<Vec<Coord>>)
    ensures
        final(data)@ == old(data)@ + rings_cmds(rings@),
{
    let mut i: usize = 0;
    proof {
        assert(rings@.subrange(0, rings@.len() as int) =~= rings@);
        assert(old(data)@ + Seq::<PathCmd>::empty() =~= old(data)@);
    }
    while i < rings.len()
        invariant
            i <= rings.len(),
            old(data)@ + rings_cmds(rings@) == data@ + rings_cmds(
                rings@.subrange(i as int, rings@.len() as int),
            ),
        decreases rings.len() - i,
    {
        proof {
            let tail = rings@.subrange(i as int, rings@.len() as int);
            assert(tail.drop_first() =~= rings@.subrange(i + 1 as int, rings@.len() as int));
        }
        let mut more = build_ring_cmds(&rings[i]);
        let ghost prev = data@;
        let ghost added = more@;
        data.append(&mut more);
        proof {
            let rest = rings@.subrange(i + 1 as int, rings@.len() as int);
            assert((prev + added) + rings_cmds(rest) =~= prev + (added + rings_cmds(rest)));
        }
        i += 1;
    }
    proof {
        let rest = rings@.subrange(rings@.len() as int, rings@.len() as int);
        assert(rings_cmds(rest) =~= Seq::<PathCmd>::empty());
        assert(data@ + Seq::<PathCmd>::empty() =~= data@);
        assert(old(data)@ + rings_cmds(rings@) =~= data@);
    }
}

/// Appends the commands of every ring of every constituent polygon of a
/// multi-polygon.
#[verifier::loop_isolation(false)]
pub fn draw_polygons(data: &mut Vec<PathCmd>, ps: &Vec<Vec<Vec<Coord>>>)
    ensures
        final(data)@ == old(data)@ + polygons_cmds(ps@),
{
    let mut i: usize = 0;
    proof {
        assert(ps@.subrange(0, ps@.len() as int) =~= ps@);
        assert(old(data)@ + Seq::<PathCmd>::empty() =~= old(data)@);
    }
    while i < ps.len()
        invariant
            i <= ps.len(),
            old(data)@ + polygons_cmds(ps@) == data@ + polygons_cmds(
                ps@.subrange(i as int, ps@.len() as int),
            ),
        decreases ps.len() - i,
    {
        proof {
            let tail = ps@.subrange(i as int, ps@.len() as int);
            assert(tail.drop_first() =~= ps@.subrange(i + 1 as int, ps@.len() as int));
        }
        let ghost prev = data@;
        draw_polygon(data, &ps[i]);
        proof {
            let rest = ps@.subrange(i + 1 as int, ps@.len() as int);
            assert((prev + rings_cmds(ps@[i as int]@)) + polygons_cmds(rest) =~= prev + (rings_cmds(
                ps@[i as int]@,
            ) + polygons_cmds(rest)));
        }
        i += 1;
    }
    proof {
        let rest = ps@.subrange(ps@.len() as int, ps@.len() as int);
        assert(polygons_cmds(rest) =~= Seq::<PathCmd>::empty());
        assert(data@ + Seq::<PathCmd>::empty() =~= data@);
        assert(old(data)@ + polygons_cmds(ps@) =~= data@);
    }
}

} // verus!

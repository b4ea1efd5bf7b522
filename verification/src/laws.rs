//! Counting properties of the path builder, stated over the pipeline's spec
//! functions and proved once and for all.

use vstd::prelude::*;
use crate::bounds::{Bounds, feature_bounds, fold_coords};
use crate::config::ViewBox;
use crate::document::spec_viewbox_attr;
use crate::geometry::{Coord, Feature, GeoDocument, Geometry};
use crate::path::{PathCmd, ring_cmds, ring_cmds_from, ring_has_point, rings_cmds, polygons_cmds};
use crate::pipeline::{document_cmds, feature_cmds, feature_pending, features_cmds};

verus! {

broadcast use vstd::seq::group_seq_axioms, vstd::std_specs::vec::group_vec_axioms;

/// How many move-to commands a command sequence holds.
pub open spec fn move_count(cs: Seq<PathCmd>) -> nat
    decreases cs.len(),
{
    if cs.len() == 0 {
        0
    } else {
        (if cs[0] is MoveTo {
            1nat
        } else {
            0nat
        }) + move_count(cs.drop_first())
    }
}

/// How many close-path commands a command sequence holds.
pub open spec fn close_count(cs: Seq<PathCmd>) -> nat
    decreases cs.len(),
{
    if cs.len() == 0 {
        0
    } else {
        (if cs[0] is ClosePath {
            1nat
        } else {
            0nat
        }) + close_count(cs.drop_first())
    }
}

/// How many rings of a polygon have a usable position.
pub open spec fn rings_drawn(rings: Seq<Vec<Coord>>) -> nat
    decreases rings.len(),
{
    if rings.len() == 0 {
        0
    } else {
        (if ring_has_point(rings[0]@) {
            1nat
        } else {
            0nat
        }) + rings_drawn(rings.drop_first())
    }
}

pub open spec fn polygons_rings_drawn(ps: Seq<Vec<Vec<Coord>>>) -> nat
    decreases ps.len(),
{
    if ps.len() == 0 {
        0
    } else {
        rings_drawn(ps[0]@) + polygons_rings_drawn(ps.drop_first())
    }
}

/// How many rings with a usable position one feature draws.
pub open spec fn feature_rings_drawn(f: Feature) -> nat {
    match f.geometry {
        Some(Geometry::Polygon(rs)) => rings_drawn(rs@),
        Some(Geometry::MultiPolygon(ps)) => polygons_rings_drawn(ps@),
        _ => 0,
    }
}

pub open spec fn features_rings_drawn(fs: Seq<Feature>) -> nat
    decreases fs.len(),
{
    if fs.len() == 0 {
        0
    } else {
        feature_rings_drawn(fs[0]) + features_rings_drawn(fs.drop_first())
    }
}

/// How many rings with a usable position a whole document draws.
pub open spec fn document_rings_drawn(d: GeoDocument) -> nat {
    match d {
        GeoDocument::FeatureCollection(fs) => features_rings_drawn(fs@),
        _ => 0,
    }
}

/// Both counts distribute over concatenation.
pub proof fn lemma_counts_concat(a: Seq<PathCmd>, b: Seq<PathCmd>)
    ensures
        move_count(a + b) == move_count(a) + move_count(b),
        close_count(a + b) == close_count(a) + close_count(b),
    decreases a.len(),
{
    if a.len() == 0 {
        assert(a + b =~= b);
    } else {
        assert((a + b).drop_first() =~= a.drop_first() + b);
        lemma_counts_concat(a.drop_first(), b);
    }
}

/// The commands still owed to a ring hold one move-to when none was emitted
/// yet and the rest of the ring has a usable position, and one close-path
/// when one was emitted or will be.
pub proof fn lemma_ring_cmds_from_counts(ring: Seq<Coord>, started: bool)
    ensures
        move_count(ring_cmds_from(ring, started)) == (if !started && ring_has_point(ring) {
            1nat
        } else {
            0nat
        }),
        close_count(ring_cmds_from(ring, started)) == (if started || ring_has_point(ring) {
            1nat
        } else {
            0nat
        }),
    decreases ring.len(),
{
    assert(move_count(Seq::<PathCmd>::empty()) == 0);
    assert(close_count(Seq::<PathCmd>::empty()) == 0);
    if ring.len() == 0 {
        assert(!ring_has_point(ring));
        if started {
            assert(ring_cmds_from(ring, started) == seq![PathCmd::ClosePath]);
            assert(seq![PathCmd::ClosePath].drop_first() =~= Seq::<PathCmd>::empty());
            assert(move_count(seq![PathCmd::ClosePath]) == 0);
            assert(close_count(seq![PathCmd::ClosePath]) == 1);
        } else {
            assert(ring_cmds_from(ring, started) == Seq::<PathCmd>::empty());
        }
    } else {
        let rest = ring.drop_first();
        lemma_ring_cmds_from_counts(rest, true);
        lemma_ring_cmds_from_counts(rest, started);
        if ring_has_point(rest) {
            let j = choose|j: int| 0 <= j < rest.len() && rest[j]@.len() >= 2;
            assert(ring[j + 1]@.len() >= 2);
            assert(ring_has_point(ring));
        }
        if ring[0]@.len() >= 2 {
            let cmd = if started {
                PathCmd::LineTo(ring[0]@[0], crate::num::spec_neg(ring[0]@[1]))
            } else {
                PathCmd::MoveTo(ring[0]@[0], crate::num::spec_neg(ring[0]@[1]))
            };
            lemma_counts_concat(seq![cmd], ring_cmds_from(rest, true));
            assert(ring_cmds_from(ring, started) == seq![cmd] + ring_cmds_from(rest, true));
            assert(seq![cmd].drop_first() =~= Seq::<PathCmd>::empty());
            assert(move_count(seq![cmd]) == (if !started { 1nat } else { 0nat }));
            assert(close_count(seq![cmd]) == 0);
            assert(ring_has_point(ring));
        } else {
            assert(ring_cmds_from(ring, started) == ring_cmds_from(rest, started));
            if ring_has_point(ring) {
                let j = choose|j: int| 0 <= j < ring.len() && ring[j]@.len() >= 2;
                assert(j != 0);
                assert(rest[j - 1]@.len() >= 2);
                assert(ring_has_point(rest));
            }
        }
    }
}

/// One ring's commands hold exactly one move-to and one close-path when it
/// has a usable position, and none otherwise.
pub proof fn lemma_ring_cmds_counts(ring: Seq<Coord>)
    ensures
        move_count(ring_cmds(ring)) == (if ring_has_point(ring) {
            1nat
        } else {
            0nat
        }),
        close_count(ring_cmds(ring)) == (if ring_has_point(ring) {
            1nat
        } else {
            0nat
        }),
{
    lemma_ring_cmds_from_counts(ring, false);
}

pub proof fn lemma_rings_cmds_counts(rings: Seq<Vec<Coord>>)
    ensures
        move_count(rings_cmds(rings)) == rings_drawn(rings),
        close_count(rings_cmds(rings)) == rings_drawn(rings),
    decreases rings.len(),
{
    if rings.len() == 0 {
    } else {
        lemma_ring_cmds_counts(rings[0]@);
        lemma_rings_cmds_counts(rings.drop_first());
        lemma_counts_concat(ring_cmds(rings[0]@), rings_cmds(rings.drop_first()));
    }
}

pub proof fn lemma_polygons_cmds_counts(ps: Seq<Vec<Vec<Coord>>>)
    ensures
        move_count(polygons_cmds(ps)) == polygons_rings_drawn(ps),
        close_count(polygons_cmds(ps)) == polygons_rings_drawn(ps),
    decreases ps.len(),
{
    if ps.len() == 0 {
    } else {
        lemma_rings_cmds_counts(ps[0]@);
        lemma_polygons_cmds_counts(ps.drop_first());
        lemma_counts_concat(rings_cmds(ps[0]@), polygons_cmds(ps.drop_first()));
    }
}

pub proof fn lemma_feature_cmds_counts(f: Feature)
    ensures
        move_count(feature_cmds(f)) == feature_rings_drawn(f),
        close_count(feature_cmds(f)) == feature_rings_drawn(f),
{
    match f.geometry {
        Some(Geometry::Polygon(rs)) => lemma_rings_cmds_counts(rs@),
        Some(Geometry::MultiPolygon(ps)) => lemma_polygons_cmds_counts(ps@),
        _ => {},
    }
}

pub proof fn lemma_features_cmds_counts(fs: Seq<Feature>)
    ensures
        move_count(features_cmds(fs)) == features_rings_drawn(fs),
        close_count(features_cmds(fs)) == features_rings_drawn(fs),
    decreases fs.len(),
{
    if fs.len() == 0 {
    } else {
        lemma_feature_cmds_counts(fs[0]);
        lemma_features_cmds_counts(fs.drop_first());
        lemma_counts_concat(feature_cmds(fs[0]), features_cmds(fs.drop_first()));
    }
}

/// Across a whole document, the accumulated path data holds exactly one
/// move-to per ring with a usable position, and exactly one close-path per
/// such ring — rings that already repeat their first position included,
/// since closing does not depend on the ring's content.
pub proof fn lemma_document_cmds_counts(d: GeoDocument)
    ensures
        move_count(document_cmds(d)) == document_rings_drawn(d),
        close_count(document_cmds(d)) == document_rings_drawn(d),
{
    match d {
        GeoDocument::FeatureCollection(fs) => lemma_features_cmds_counts(fs@),
        _ => {},
    }
}

/// A character sequence split on spaces: the maximal space-free segments,
/// with an empty segment between adjacent spaces and at the ends.
pub open spec fn split_spaces(s: Seq<char>) -> Seq<Seq<char>>
    decreases s.len(),
{
    if s.len() == 0 {
        seq![Seq::empty()]
    } else if s[0] == ' ' {
        seq![Seq::<char>::empty()] + split_spaces(s.drop_first())
    } else {
        let r = split_spaces(s.drop_first());
        seq![seq![s[0]] + r[0]] + r.drop_first()
    }
}

pub proof fn lemma_split_len_pos(s: Seq<char>)
    ensures
        split_spaces(s).len() >= 1,
    decreases s.len(),
{
    if s.len() == 0 {
    } else {
        lemma_split_len_pos(s.drop_first());
    }
}

/// Splitting a space-free segment yields that segment alone.
pub proof fn lemma_split_whole(a: Seq<char>)
    requires
        !a.contains(' '),
    ensures
        split_spaces(a) == seq![a],
    decreases a.len(),
{
    if a.len() == 0 {
        assert(split_spaces(a) =~~= seq![a]);
    } else {
        assert(a[0] != ' ');
        let rest = a.drop_first();
        assert(!rest.contains(' ')) by {
            if rest.contains(' ') {
                let j = choose|j: int| 0 <= j < rest.len() && rest[j] == ' ';
                assert(a[j + 1] == ' ');
            }
        }
        lemma_split_whole(rest);
        let r = split_spaces(rest);
        assert(r[0] == rest);
        assert(r.drop_first() =~~= Seq::<Seq<char>>::empty());
        assert(seq![a[0]] + rest =~= a);
        assert(split_spaces(a) =~~= seq![a]);
    }
}

/// Splitting a space-free segment, a space, and a remainder yields the
/// segment, then the remainder's split.
pub proof fn lemma_split_step(a: Seq<char>, t: Seq<char>)
    requires
        !a.contains(' '),
    ensures
        split_spaces(a + seq![' '] + t) == seq![a] + split_spaces(t),
    decreases a.len(),
{
    let s = a + seq![' '] + t;
    if a.len() == 0 {
        assert(s =~= seq![' '] + t);
        assert(s[0] == ' ');
        assert(s.drop_first() =~= t);
        assert(split_spaces(s) =~~= seq![a] + split_spaces(t));
    } else {
        assert(s[0] == a[0]);
        assert(a[0] != ' ');
        let rest = a.drop_first();
        assert(!rest.contains(' ')) by {
            if rest.contains(' ') {
                let j = choose|j: int| 0 <= j < rest.len() && rest[j] == ' ';
                assert(a[j + 1] == ' ');
            }
        }
        lemma_split_step(rest, t);
        assert(s.drop_first() =~= rest + seq![' '] + t);
        let r = split_spaces(rest + seq![' '] + t);
        assert(r == seq![rest] + split_spaces(t));
        lemma_split_len_pos(t);
        assert(r[0] == rest);
        assert(seq![a[0]] + r[0] =~= a);
        assert(r.drop_first() =~~= split_spaces(t));
        assert(split_spaces(s) =~~= seq![a] + split_spaces(t));
    }
}

/// Re-parsing the viewport attribute recovers the four numbers exactly:
/// splitting on spaces undoes the join, since a number's decimal form never
/// holds a space.
pub proof fn lemma_viewbox_attr_round_trip(vb: ViewBox)
    requires
        !vb.min_x@.contains(' '),
        !vb.min_y@.contains(' '),
        !vb.width@.contains(' '),
        !vb.height@.contains(' '),
    ensures
        split_spaces(spec_viewbox_attr(vb)) == seq![vb.min_x@, vb.min_y@, vb.width@, vb.height@],
{
    let sp = seq![' '];
    reveal_strlit(" ");
    assert(" "@ =~= sp);
    let tail2 = vb.width@ + sp + vb.height@;
    let tail1 = vb.min_y@ + sp + tail2;
    assert(spec_viewbox_attr(vb) =~= vb.min_x@ + sp + tail1);
    lemma_split_whole(vb.height@);
    lemma_split_step(vb.width@, vb.height@);
    lemma_split_step(vb.min_y@, tail2);
    lemma_split_step(vb.min_x@, tail1);
    assert(split_spaces(spec_viewbox_attr(vb)) =~~= seq![
        vb.min_x@,
        vb.min_y@,
        vb.width@,
        vb.height@,
    ]);
}

/// A feature whose geometry is a line string still feeds the bounds — every
/// usable position of the line folds in — yet contributes no drawing
/// command and no label.
pub proof fn lemma_linestring_feature(b: Bounds, f: Feature, cs: Vec<Coord>)
    requires
        f.geometry == Some(Geometry::LineString(cs)),
    ensures
        feature_bounds(b, f) == fold_coords(b, cs@),
        feature_cmds(f) == Seq::<PathCmd>::empty(),
        feature_pending(f).len() == 0,
{
}

} // verus!

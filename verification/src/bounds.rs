//! The bounds calculator: one pass over every coordinate reachable from a
//! document, folding each into a running axis-aligned bounding rectangle.
//!
//! The rectangle starts at the sentinel "empty" state (minima at positive
//! infinity, maxima at negative infinity); a document that yields no
//! coordinate leaves it there, which `bounds_is_empty` detects.

use vstd::prelude::*;
use crate::num::{spec_min, spec_max, min_bits, max_bits, POS_INFINITY, NEG_INFINITY};
use crate::geometry::{Coord, Geometry, Feature, GeoDocument};

verus! {

broadcast use vstd::seq::group_seq_axioms, vstd::std_specs::vec::group_vec_axioms;

/// A running bounding rectangle over binary64 bit patterns.
#[derive(Clone, Copy)]
pub struct Bounds {
    pub min_x: u64,
    pub max_x: u64,
    pub min_y: u64,
    pub max_y: u64,
}

/// The sentinel starting state: minima at positive infinity, maxima at
/// negative infinity.
pub open spec fn empty_bounds() -> Bounds {
    Bounds { min_x: POS_INFINITY, max_x: NEG_INFINITY, min_y: POS_INFINITY, max_y: NEG_INFINITY }
}

/// Folding one position into the rectangle; positions with fewer than two
/// components are skipped.
pub open spec fn bounds_update(b: Bounds, c: Coord) -> Bounds {
    if c@.len() >= 2 {
        Bounds {
            min_x: spec_min(b.min_x, c@[0]),
            max_x: spec_max(b.max_x, c@[0]),
            min_y: spec_min(b.min_y, c@[1]),
            max_y: spec_max(b.max_y, c@[1]),
        }
    } else {
        b
    }
}

pub open spec fn fold_coords(b: Bounds, cs: Seq<Coord>) -> Bounds
    decreases cs.len(),
{
    if cs.len() == 0 {
        b
    } else {
        fold_coords(bounds_update(b, cs[0]), cs.drop_first())
    }
}

pub open spec fn fold_rings(b: Bounds, rs: Seq<Vec<Coord>>) -> Bounds
    decreases rs.len(),
{
    if rs.len() == 0 {
        b
    } else {
        fold_rings(fold_coords(b, rs[0]@), rs.drop_first())
    }
}

pub open spec fn fold_polygons(b: Bounds, ps: Seq<Vec<Vec<Coord>>>) -> Bounds
    decreases ps.len(),
{
    if ps.len() == 0 {
        b
    } else {
        fold_polygons(fold_rings(b, ps[0]@), ps.drop_first())
    }
}

/// Every coordinate of a geometry folded into the rectangle, in input order,
/// recursing into geometry collections.
pub open spec fn geometry_bounds(b: Bounds, g: Geometry) -> Bounds
    decreases g,
{
    match g {
        Geometry::Point(c) => bounds_update(b, c),
        Geometry::MultiPoint(cs) => fold_coords(b, cs@),
        Geometry::LineString(cs) => fold_coords(b, cs@),
        Geometry::MultiLineString(rs) => fold_rings(b, rs@),
        Geometry::Polygon(rs) => fold_rings(b, rs@),
        Geometry::MultiPolygon(ps) => fold_polygons(b, ps@),
        Geometry::GeometryCollection(gs) => fold_geometries(b, gs@),
    }
}

pub open spec fn fold_geometries(b: Bounds, gs: Seq<Geometry>) -> Bounds
    decreases gs,
{
    if gs.len() == 0 {
        b
    } else {
        fold_geometries(geometry_bounds(b, gs[0]), gs.drop_first())
    }
}

/// A feature contributes its geometry's coordinates, if it has a geometry.
pub open spec fn feature_bounds(b: Bounds, f: Feature) -> Bounds {
    match f.geometry {
        Some(g) => geometry_bounds(b, g),
        None => b,
    }
}

pub open spec fn fold_features(b: Bounds, fs: Seq<Feature>) -> Bounds
    decreases fs.len(),
{
    if fs.len() == 0 {
        b
    } else {
        fold_features(feature_bounds(b, fs[0]), fs.drop_first())
    }
}

/// The bounding rectangle of a whole document.  A feature collection folds
/// its features in order; a bare geometry folds its own coordinates; a bare
/// feature contributes nothing.
pub open spec fn document_bounds(d: GeoDocument) -> Bounds {
    match d {
        GeoDocument::FeatureCollection(fs) => fold_features(empty_bounds(), fs@),
        GeoDocument::Geometry(g) => geometry_bounds(empty_bounds(), g),
        GeoDocument::Feature(_) => empty_bounds(),
    }
}

/// The rectangle is still in its sentinel state exactly when its x minimum
/// is the positive-infinity bit pattern.
pub open spec fn spec_bounds_empty(b: Bounds) -> bool {
    b.min_x == POS_INFINITY
}

pub fn update_bounds(b: Bounds, c: &Coord) -> (r: Bounds)
    ensures
        r == bounds_update(b, *c),
{
    if c.len() >= 2 {
        Bounds {
            min_x: min_bits(b.min_x, c[0]),
            max_x: max_bits(b.max_x, c[0]),
            min_y: min_bits(b.min_y, c[1]),
            max_y: max_bits(b.max_y, c[1]),
        }
    } else {
        b
    }
}

fn coords_bounds(b: Bounds, cs: &Vec<Coord>) -> (r: Bounds)
    ensures
        r == fold_coords(b, cs@),
{
    let mut cur = b;
    let mut i: usize = 0;
    proof {
        assert(cs@.subrange(0, cs@.len() as int) =~= cs@);
    }
    while i < cs.len()
        invariant
            i <= cs.len(),
            fold_coords(b, cs@) == fold_coords(cur, cs@.subrange(i as int, cs@.len() as int)),
        decreases cs.len() - i,
    {
        proof {
            let tail = cs@.subrange(i as int, cs@.len() as int);
            assert(tail.drop_first() =~= cs@.subrange(i + 1 as int, cs@.len() as int));
        }
        cur = update_bounds(cur, &cs[i]);
        i += 1;
    }
    cur
}

fn rings_bounds(b: Bounds, rs: &Vec<Vec<Coord>>) -> (r: Bounds)
    ensures
        r == fold_rings(b, rs@),
{
    let mut cur = b;
    let mut i: usize = 0;
    proof {
        assert(rs@.subrange(0, rs@.len() as int) =~= rs@);
    }
    while i < rs.len()
        invariant
            i <= rs.len(),
            fold_rings(b, rs@) == fold_rings(cur, rs@.subrange(i as int, rs@.len() as int)),
        decreases rs.len() - i,
    {
        proof {
            let tail = rs@.subrange(i as int, rs@.len() as int);
            assert(tail.drop_first() =~= rs@.subrange(i + 1 as int, rs@.len() as int));
        }
        cur = coords_bounds(cur, &rs[i]);
        i += 1;
    }
    cur
}

fn polygons_bounds(b: Bounds, ps: &Vec<Vec<Vec<Coord>>>) -> (r: Bounds)
    ensures
        r == fold_polygons(b, ps@),
{
    let mut cur = b;
    let mut i: usize = 0;
    proof {
        assert(ps@.subrange(0, ps@.len() as int) =~= ps@);
    }
    while i < ps.len()
        invariant
            i <= ps.len(),
            fold_polygons(b, ps@) == fold_polygons(cur, ps@.subrange(i as int, ps@.len() as int)),
        decreases ps.len() - i,
    {
        proof {
            let tail = ps@.subrange(i as int, ps@.len() as int);
            assert(tail.drop_first() =~= ps@.subrange(i + 1 as int, ps@.len() as int));
        }
        cur = rings_bounds(cur, &ps[i]);
        i += 1;
    }
    cur
}

/// Folds every coordinate of one geometry into the rectangle.
#[verifier::loop_isolation(false)]
pub fn accumulate_geometry_bounds(b: Bounds, g: &Geometry) -> (r: Bounds)
    ensures
        r == geometry_bounds(b, *g),
    decreases *g,
{
    match g {
        Geometry::Point(c) => update_bounds(b, c),
        Geometry::MultiPoint(cs) => coords_bounds(b, cs),
        Geometry::LineString(cs) => coords_bounds(b, cs),
        Geometry::MultiLineString(rs) => rings_bounds(b, rs),
        Geometry::Polygon(rs) => rings_bounds(b, rs),
        Geometry::MultiPolygon(ps) => polygons_bounds(b, ps),
        Geometry::GeometryCollection(gs) => {
            let mut cur = b;
            let mut i: usize = 0;
            proof {
                assert(gs@.subrange(0, gs@.len() as int) =~= gs@);
            }
            while i < gs.len()
                invariant
                    i <= gs.len(),
                    fold_geometries(b, gs@) == fold_geometries(
                        cur,
                        gs@.subrange(i as int, gs@.len() as int),
                    ),
                decreases gs.len() - i,
            {
                proof {
                    let tail = gs@.subrange(i as int, gs@.len() as int);
                    assert(tail.drop_first() =~= gs@.subrange(i + 1 as int, gs@.len() as int));
                    assert(decreases_to!(*g => *gs));
                    assert(decreases_to!(*gs => gs@));
                    assert(decreases_to!(gs@ => gs@[i as int]));
                }
                cur = accumulate_geometry_bounds(cur, &gs[i]);
                i += 1;
            }
            cur
        },
    }
}

/// The bounding rectangle of a whole document: a single pass over every
/// reachable coordinate.
pub fn compute_bounds(doc: &GeoDocument) -> (r: Bounds)
    ensures
        r == document_bounds(*doc),
{
    match doc {
        GeoDocument::FeatureCollection(fs) => {
            let mut cur = empty_bounds_value();
            let mut i: usize = 0;
            proof {
                assert(fs@.subrange(0, fs@.len() as int) =~= fs@);
            }
            while i < fs.len()
                invariant
                    i <= fs.len(),
                    fold_features(empty_bounds(), fs@) == fold_features(
                        cur,
                        fs@.subrange(i as int, fs@.len() as int),
                    ),
                decreases fs.len() - i,
            {
                proof {
                    let tail = fs@.subrange(i as int, fs@.len() as int);
                    assert(tail.drop_first() =~= fs@.subrange(i + 1 as int, fs@.len() as int));
                }
                cur = match &fs[i].geometry {
                    Some(g) => accumulate_geometry_bounds(cur, g),
                    None => cur,
                };
                i += 1;
            }
            cur
        },
        GeoDocument::Geometry(g) => accumulate_geometry_bounds(empty_bounds_value(), g),
        GeoDocument::Feature(_) => empty_bounds_value(),
    }
}

/// The sentinel starting rectangle as a value.
pub fn empty_bounds_value() -> (r: Bounds)
    ensures
        r == empty_bounds(),
{
    Bounds { min_x: POS_INFINITY, max_x: NEG_INFINITY, min_y: POS_INFINITY, max_y: NEG_INFINITY }
}

/// True exactly when no coordinate was folded in: the x minimum still holds
/// the positive-infinity bit pattern.
pub fn bounds_is_empty(b: &Bounds) -> (r: bool)
    ensures
        r == spec_bounds_empty(*b),
{
    b.min_x == POS_INFINITY
}

} // verus!

//! The geometry data model: a tagged variant over the GeoJSON geometry
//! kinds, plus features and whole documents.
//!
//! Every coordinate component is carried as the bit pattern of its binary64
//! encoding (see the `num` module).  A position is a variable-length list of
//! components; consumers read only the first two and skip positions with
//! fewer than two.

use vstd::prelude::*;

verus! {

/// One position: a variable-length list of binary64 bit patterns.
pub type Coord = Vec<u64>;

/// A geometry value, with one recursive case for geometry collections.
pub enum Geometry {
    Point(Coord),
    MultiPoint(Vec<Coord>),
    LineString(Vec<Coord>),
    MultiLineString(Vec<Vec<Coord>>),
    Polygon(Vec<Vec<Coord>>),
    MultiPolygon(Vec<Vec<Vec<Coord>>>),
    GeometryCollection(Vec<Geometry>),
}

/// A property value as the label lookup sees it: either text, or anything
/// else, which the lookup treats as absent.
pub enum PropertyValue {
    Text(String),
    Other,
}

/// One key/value pair of a feature's property set.
pub struct Property {
    pub key: String,
    pub value: PropertyValue,
}

/// A feature: an optional geometry with an optional property set.
pub struct Feature {
    pub geometry: Option<Geometry>,
    pub properties: Option<Vec<Property>>,
}

/// A parsed GeoJSON document: a feature collection, a bare geometry, or a
/// bare feature.
pub enum GeoDocument {
    FeatureCollection(Vec<Feature>),
    Geometry(Geometry),
    Feature(Feature),
}

} // verus!

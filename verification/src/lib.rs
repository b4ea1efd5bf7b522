//! Renders a GeoJSON feature collection as a standalone SVG image.
//!
//! Polygon geometry becomes filled, stroked vector paths; a viewport is
//! derived from the data when the style configuration does not supply one;
//! and text labels are placed at each polygon's vertex-average centroid,
//! with the label text found through a locale-tolerant property lookup.
//!
//! Every numeric value travels through the pipeline as the bit pattern of its
//! IEEE 754 binary64 encoding (see the `num` module).  The few operations the
//! pipeline needs that are not exact bit manipulations — rounding arithmetic
//! for the viewport padding and the centroid mean, decimal formatting, and
//! the parsing and serialization at the two ends — are supplied by the
//! embedding program through the contract-free `Host` trait.

pub mod bounds;
pub mod centroid;
pub mod config;
pub mod document;
pub mod geometry;
pub mod host;
pub mod labels;
pub mod laws;
pub mod num;
pub mod path;
pub mod pipeline;

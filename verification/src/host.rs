//! The host interface: the operations the pipeline needs that are not exact
//! bit manipulations, supplied by the embedding program.
//!
//! The trait carries no contracts: nothing in the library is proved from
//! what an implementation returns.  Every decision the pipeline makes is
//! verified for every possible answer.

use vstd::prelude::*;
use crate::config::RawConfig;
use crate::document::SvgDocument;
use crate::geometry::GeoDocument;

verus! {

/// What the embedding program supplies: binary64 arithmetic and decimal
/// formatting, and the parsing and serialization at the two ends of the
/// pipeline.  Arguments and results carry binary64 values as bit patterns.
pub trait Host {
    /// The decimal form of a binary64 value, as the SVG serializer writes
    /// attribute values.
    fn format_number(&self, bits: u64) -> String;

    /// The decimal form of a binary64 value narrowed to binary32, as the SVG
    /// serializer writes path-data parameters.
    fn format_path_number(&self, bits: u64) -> String;

    /// One axis of the viewport padding: for the span from `lo` to `hi`,
    /// with `w` the span's width and `p` one tenth of it, the values
    /// `lo - p`, `hi + p` and `w + 2 p`.
    fn pad_axis(&self, lo: u64, hi: u64) -> (u64, u64, u64);

    /// The arithmetic mean of the positions: the sums of the x and y
    /// components, each divided by the count.
    fn mean_point(&self, pts: &Vec<(u64, u64)>) -> (u64, u64);

    /// The style payload parsed as JSON into the raw configuration shape,
    /// with numeric fields in their decimal form; no result when the payload
    /// does not parse into that shape.
    fn parse_config(&self, bytes: &Vec<u8>) -> Option<RawConfig>;

    /// The input bytes decoded as UTF-8 text, or a decoding error message.
    fn decode_text(&self, bytes: &Vec<u8>) -> Result<String, String>;

    /// The text parsed as a GeoJSON document, or a parse error message.
    fn parse_document(&self, text: &String) -> Result<GeoDocument, String>;

    /// The document tree serialized as SVG bytes, or a serialization error
    /// message.
    fn serialize_document(&self, doc: &SvgDocument) -> Result<Vec<u8>, String>;
}

} // verus!

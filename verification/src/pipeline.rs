//! The transform pipeline: resolve the configuration, derive the viewport
//! when none is supplied, walk the features accumulating path data and
//! labels, assemble the document, and serialize.
//!
//! Every decision is made here and verified; the host supplies rounding
//! arithmetic, formatting, parsing and serialization (see the `host`
//! module), and nothing is proved from what it returns.

use vstd::prelude::*;
use crate::bounds::{compute_bounds, bounds_is_empty, document_bounds, spec_bounds_empty};
use crate::centroid::{centroid_points, spec_centroid_points};
use crate::config::{RawConfig, ViewBox, resolve_config};
use crate::document::{
    SvgDocument,
    TextPathCmd,
    assemble_document,
    join_path_data,
    spec_viewbox_attr,
    viewbox_attr,
};
use crate::geometry::{Feature, GeoDocument, Geometry};
use crate::host::Host;
use crate::labels::{resolve_label, spec_resolve_label};
use crate::num::{ZERO_BITS, ONE_BITS, spec_neg, spec_max, neg_bits, max_bits};
use crate::path::{PathCmd, draw_polygon, draw_polygons, rings_cmds, polygons_cmds};

verus! {

broadcast use vstd::seq::group_seq_axioms, vstd::std_specs::vec::group_vec_axioms;

/// The drawing commands one feature contributes: polygons and
/// multi-polygons draw, everything else is skipped.
pub open spec fn feature_cmds(f: Feature) -> Seq<PathCmd> {
    match f.geometry {
        Some(Geometry::Polygon(rs)) => rings_cmds(rs@),
        Some(Geometry::MultiPolygon(ps)) => polygons_cmds(ps@),
        _ => Seq::empty(),
    }
}

pub open spec fn features_cmds(fs: Seq<Feature>) -> Seq<PathCmd>
    decreases fs.len(),
{
    if fs.len() == 0 {
        Seq::empty()
    } else {
        feature_cmds(fs[0]) + features_cmds(fs.drop_first())
    }
}

/// The drawing commands of a whole document: only a feature collection
/// draws.
pub open spec fn document_cmds(d: GeoDocument) -> Seq<PathCmd> {
    match d {
        GeoDocument::FeatureCollection(fs) => features_cmds(fs@),
        _ => Seq::empty(),
    }
}

/// A label waiting for its position: the text, and the positions whose mean
/// places it.
pub struct PendingLabel {
    pub text: String,
    pub points: Vec<(u64, u64)>,
}

pub open spec fn pending_view(p: PendingLabel) -> (Seq<char>, Seq<(u64, u64)>) {
    (p.text@, p.points@)
}

/// The labels one feature contributes: a drawn feature whose properties
/// resolve to a label text, placed by its first polygon's outer ring — for
/// a multi-polygon with no constituent polygon, nothing.
pub open spec fn feature_pending(f: Feature) -> Seq<(Seq<char>, Seq<(u64, u64)>)> {
    match f.geometry {
        Some(Geometry::Polygon(rs)) => match spec_resolve_label(f.properties) {
            Some(t) => seq![(t, spec_centroid_points(rs@))],
            None => Seq::empty(),
        },
        Some(Geometry::MultiPolygon(ps)) => match spec_resolve_label(f.properties) {
            Some(t) => if ps@.len() > 0 {
                seq![(t, spec_centroid_points(ps@[0]@))]
            } else {
                Seq::empty()
            },
            None => Seq::empty(),
        },
        _ => Seq::empty(),
    }
}

pub open spec fn features_pending(fs: Seq<Feature>) -> Seq<(Seq<char>, Seq<(u64, u64)>)>
    decreases fs.len(),
{
    if fs.len() == 0 {
        Seq::empty()
    } else {
        feature_pending(fs[0]) + features_pending(fs.drop_first())
    }
}

/// The labels of a whole document: only a feature collection labels.
pub open spec fn document_pending(d: GeoDocument) -> Seq<(Seq<char>, Seq<(u64, u64)>)> {
    match d {
        GeoDocument::FeatureCollection(fs) => features_pending(fs@),
        _ => Seq::empty(),
    }
}

/// Appends one feature's drawing commands and pending labels.
fn handle_feature(data: &mut Vec<PathCmd>, pending: &mut Vec<PendingLabel>, f: &Feature)
    ensures
        final(data)@ == old(data)@ + feature_cmds(*f),
        final(pending)@.map_values(|p: PendingLabel| pending_view(p)) == old(
            pending,
        )@.map_values(|p: PendingLabel| pending_view(p)) + feature_pending(*f),
{
    let ghost prev = pending@.map_values(|p: PendingLabel| pending_view(p));
    match &f.geometry {
        Some(Geometry::Polygon(rs)) => {
            draw_polygon(data, rs);
            match resolve_label(&f.properties) {
                Some(text) => {
                    let points = centroid_points(rs);
                    let ghost entry = (text@, points@);
                    pending.push(PendingLabel { text, points });
                    proof {
                        assert(pending@.map_values(|p: PendingLabel| pending_view(p)) =~= prev
                            + seq![entry]);
                        assert(feature_pending(*f) =~= seq![entry]);
                    }
                },
                None => {
                    proof {
                        assert(feature_pending(*f) =~= Seq::<(Seq<char>, Seq<(u64, u64)>)>::empty());
                        assert(prev + feature_pending(*f) =~= prev);
                    }
                },
            }
        },
        Some(Geometry::MultiPolygon(ps)) => {
            draw_polygons(data, ps);
            match resolve_label(&f.properties) {
                Some(text) => {
                    if ps.len() > 0 {
                        let points = centroid_points(&ps[0]);
                        let ghost entry = (text@, points@);
                        pending.push(PendingLabel { text, points });
                        proof {
                            assert(pending@.map_values(|p: PendingLabel| pending_view(p)) =~= prev
                                + seq![entry]);
                            assert(feature_pending(*f) =~= seq![entry]);
                        }
                    } else {
                        proof {
                            assert(feature_pending(*f) =~= Seq::<
                                (Seq<char>, Seq<(u64, u64)>),
                            >::empty());
                            assert(prev + feature_pending(*f) =~= prev);
                        }
                    }
                },
                None => {
                    proof {
                        assert(feature_pending(*f) =~= Seq::<(Seq<char>, Seq<(u64, u64)>)>::empty());
                        assert(prev + feature_pending(*f) =~= prev);
                    }
                },
            }
        },
        _ => {
            proof {
                assert(feature_cmds(*f) =~= Seq::<PathCmd>::empty());
                assert(data@ + feature_cmds(*f) =~= data@);
                assert(feature_pending(*f) =~= Seq::<(Seq<char>, Seq<(u64, u64)>)>::empty());
                assert(prev + feature_pending(*f) =~= prev);
            }
        },
    }
}

/// Walks a document's features in order, accumulating the drawing commands
/// and the pending labels.
#[verifier::loop_isolation(false)]
pub fn walk_features(doc: &GeoDocument) -> (r: (Vec<PathCmd>, Vec<PendingLabel>))
    ensures
        r.0@ == document_cmds(*doc),
        r.1@.map_values(|p: PendingLabel| pending_view(p)) == document_pending(*doc),
{
    let mut data: Vec<PathCmd> = Vec::new();
    let mut pending: Vec<PendingLabel> = Vec::new();
    match doc {
        GeoDocument::FeatureCollection(fs) => {
            let mut i: usize = 0;
            proof {
                assert(fs@.subrange(0, fs@.len() as int) =~= fs@);
                assert(pending@.map_values(|p: PendingLabel| pending_view(p)) =~= Seq::<
                    (Seq<char>, Seq<(u64, u64)>),
                >::empty());
            }
            while i < fs.len()
                invariant
                    i <= fs.len(),
                    features_cmds(fs@) == data@ + features_cmds(
                        fs@.subrange(i as int, fs@.len() as int),
                    ),
                    features_pending(fs@) == pending@.map_values(|p: PendingLabel| pending_view(p))
                        + features_pending(fs@.subrange(i as int, fs@.len() as int)),
                decreases fs.len() - i,
            {
                proof {
                    let tail = fs@.subrange(i as int, fs@.len() as int);
                    assert(tail.drop_first() =~= fs@.subrange(i + 1 as int, fs@.len() as int));
                }
                let ghost dprev = data@;
                let ghost pprev = pending@.map_values(|p: PendingLabel| pending_view(p));
                handle_feature(&mut data, &mut pending, &fs[i]);
                proof {
                    let rest = fs@.subrange(i + 1 as int, fs@.len() as int);
                    assert((dprev + feature_cmds(fs@[i as int])) + features_cmds(rest) =~= dprev + (
                    feature_cmds(fs@[i as int]) + features_cmds(rest)));
                    assert((pprev + feature_pending(fs@[i as int])) + features_pending(rest)
                        =~= pprev + (feature_pending(fs@[i as int]) + features_pending(rest)));
                }
                i += 1;
            }
            proof {
                let rest = fs@.subrange(fs@.len() as int, fs@.len() as int);
                assert(features_cmds(rest) =~= Seq::<PathCmd>::empty());
                assert(data@ + Seq::<PathCmd>::empty() =~= data@);
                assert(features_pending(rest) =~= Seq::<(Seq<char>, Seq<(u64, u64)>)>::empty());
                assert(pending@.map_values(|p: PendingLabel| pending_view(p)) + Seq::<
                    (Seq<char>, Seq<(u64, u64)>),
                >::empty() =~= pending@.map_values(|p: PendingLabel| pending_view(p)));
            }
            (data, pending)
        },
        _ => {
            proof {
                assert(pending@.map_values(|p: PendingLabel| pending_view(p)) =~= Seq::<
                    (Seq<char>, Seq<(u64, u64)>),
                >::empty());
            }
            (data, pending)
        },
    }
}

/// Applies the viewport's final, exactly-specified steps: the origin x
/// passes through, the origin y is the far y padded then negated, and each
/// size gets the floor of one.
pub fn finish_viewport(x_origin: u64, x_size: u64, y_far: u64, y_size: u64) -> (r: (
    u64,
    u64,
    u64,
    u64,
))
    ensures
        r.0 == x_origin,
        r.1 == spec_neg(y_far),
        r.2 == spec_max(x_size, ONE_BITS),
        r.3 == spec_max(y_size, ONE_BITS),
{
    (x_origin, neg_bits(y_far), max_bits(x_size, ONE_BITS), max_bits(y_size, ONE_BITS))
}

/// Derives the viewport from the data: the fixed fallback when the document
/// yields no coordinate, else the padded, y-flipped bounding rectangle with
/// each size floored at one.
pub fn compute_viewbox<H: Host>(doc: &GeoDocument, host: &H) -> (vb: ViewBox)
    ensures
        spec_bounds_empty(document_bounds(*doc)) ==> vb.min_x@ == "0"@ && vb.min_y@ == "0"@
            && vb.width@ == "100"@ && vb.height@ == "100"@,
{
    let b = compute_bounds(doc);
    if bounds_is_empty(&b) {
        ViewBox {
            min_x: "0".to_owned(),
            min_y: "0".to_owned(),
            width: "100".to_owned(),
            height: "100".to_owned(),
        }
    } else {
        let x = host.pad_axis(b.min_x, b.max_x);
        let y = host.pad_axis(b.min_y, b.max_y);
        let (ox, oy, w, h) = finish_viewport(x.0, x.2, y.1, y.2);
        ViewBox {
            min_x: host.format_number(ox),
            min_y: host.format_number(oy),
            width: host.format_number(w),
            height: host.format_number(h),
        }
    }
}

/// Whether a payload asks for labels: absent or unparsed means shown.
pub open spec fn spec_show_labels(raw: Option<RawConfig>) -> bool {
    match raw {
        Some(r) => match r.show_labels {
            Some(b) => b,
            None => true,
        },
        None => true,
    }
}

pub open spec fn spec_explicit_viewbox(raw: Option<RawConfig>) -> Option<ViewBox> {
    match raw {
        Some(r) => r.viewbox,
        None => None,
    }
}

pub open spec fn spec_fill(raw: Option<RawConfig>) -> Seq<char> {
    match raw {
        Some(r) => r.fill@,
        None => "red"@,
    }
}

pub open spec fn spec_stroke(raw: Option<RawConfig>) -> Seq<char> {
    match raw {
        Some(r) => r.stroke@,
        None => "black"@,
    }
}

pub open spec fn spec_stroke_width(raw: Option<RawConfig>) -> Seq<char> {
    match raw {
        Some(r) => r.stroke_width@,
        None => "0.05"@,
    }
}

pub open spec fn spec_fill_opacity(raw: Option<RawConfig>) -> Seq<char> {
    match raw {
        Some(r) => r.fill_opacity@,
        None => "0.5"@,
    }
}

pub open spec fn spec_label_color(raw: Option<RawConfig>) -> Seq<char> {
    match raw {
        Some(r) => match r.label_color {
            Some(s) => s@,
            None => "black"@,
        },
        None => "black"@,
    }
}

pub open spec fn spec_label_font_size(raw: Option<RawConfig>) -> Seq<char> {
    match raw {
        Some(r) => match r.label_font_size {
            Some(s) => s@,
            None => "0.3"@,
        },
        None => "0.3"@,
    }
}

pub open spec fn spec_label_font_family(raw: Option<RawConfig>) -> Seq<char> {
    match raw {
        Some(r) => match r.label_font_family {
            Some(s) => s@,
            None => "Arial"@,
        },
        None => "Arial"@,
    }
}

/// The whole transform on a parsed document and payload: an explicit
/// viewport is used exactly as supplied and the bounds are never consulted;
/// with no explicit viewport and no coordinates the fixed fallback viewport
/// appears; the path element carries the style attributes verbatim; and one
/// text element per resolved label appears exactly when labels are shown.
#[verifier::loop_isolation(false)]
pub fn transform<H: Host>(doc: &GeoDocument, raw: Option<RawConfig>, host: &H) -> (out:
    SvgDocument)
    ensures
        out.fill@ == spec_fill(raw),
        out.stroke@ == spec_stroke(raw),
        out.stroke_width@ == spec_stroke_width(raw),
        out.fill_opacity@ == spec_fill_opacity(raw),
        spec_explicit_viewbox(raw) matches Some(vb) ==> out.viewbox@ == spec_viewbox_attr(vb),
        spec_explicit_viewbox(raw) is None && spec_bounds_empty(document_bounds(*doc))
            ==> out.viewbox@ == "0 0 100 100"@,
        (document_cmds(*doc).len() == 0) == (out.path_data@.len() == 0),
        out.texts@.len() == (if spec_show_labels(raw) {
            document_pending(*doc).len()
        } else {
            0
        }),
        forall|i: int|
            0 <= i < out.texts@.len() ==> {
                &&& out.texts@[i].content@ == document_pending(*doc)[i].0
                &&& out.texts@[i].font_size@ == spec_label_font_size(raw)
                &&& out.texts@[i].font_family@ == spec_label_font_family(raw)
                &&& out.texts@[i].fill@ == spec_label_color(raw)
            },
{
    let cfg = resolve_config(raw);
    let vb_string = match &cfg.viewbox {
        Some(vb) => viewbox_attr(vb),
        None => {
            let vb = compute_viewbox(doc, host);
            let s = viewbox_attr(&vb);
            proof {
                if spec_bounds_empty(document_bounds(*doc)) {
                    reveal_strlit("0");
                    reveal_strlit(" ");
                    reveal_strlit("100");
                    reveal_strlit("0 0 100 100");
                    assert(s@ =~= "0 0 100 100"@);
                }
            }
            s
        },
    };
    let (cmds, pending) = walk_features(doc);
    let mut labels: Vec<(String, String, String)> = Vec::new();
    let mut i: usize = 0;
    while i < pending.len()
        invariant
            i <= pending.len(),
            labels@.len() == i,
            forall|j: int| 0 <= j < i ==> labels@[j].2@ == pending@[j].text@,
        decreases pending.len() - i,
    {
        let p = &pending[i];
        let pos: (u64, u64) = if p.points.len() == 0 {
            (ZERO_BITS, ZERO_BITS)
        } else {
            host.mean_point(&p.points)
        };
        let x_s = host.format_number(pos.0);
        let y_s = host.format_number(neg_bits(pos.1));
        labels.push((x_s, y_s, p.text.clone()));
        i += 1;
    }
    let mut tcmds: Vec<TextPathCmd> = Vec::new();
    let mut k: usize = 0;
    while k < cmds.len()
        invariant
            k <= cmds.len(),
            tcmds@.len() == k,
        decreases cmds.len() - k,
    {
        let t = match &cmds[k] {
            PathCmd::MoveTo(x, y) => TextPathCmd::MoveTo(
                host.format_path_number(*x),
                host.format_path_number(*y),
            ),
            PathCmd::LineTo(x, y) => TextPathCmd::LineTo(
                host.format_path_number(*x),
                host.format_path_number(*y),
            ),
            PathCmd::ClosePath => TextPathCmd::ClosePath,
        };
        tcmds.push(t);
        k += 1;
    }
    let d = join_path_data(&tcmds);
    proof {
        if tcmds@.len() > 0 {
            crate::document::lemma_path_data_nonempty(tcmds@);
        }
    }
    let out = assemble_document(cfg, vb_string, d, labels);
    proof {
        let pv = pending@.map_values(|p: PendingLabel| pending_view(p));
        assert(pv == document_pending(*doc));
        assert forall|i: int| 0 <= i < out.texts@.len() implies out.texts@[i].content@
            == document_pending(*doc)[i].0 by {
            assert(out.texts@[i].content == labels@[i].2);
            assert(labels@[i].2@ == pending@[i].text@);
            assert(pv[i] == pending_view(pending@[i]));
            assert(document_pending(*doc)[i].0 == pending@[i].text@);
        }
        assert(cfg.label_font_size@ == spec_label_font_size(raw));
        assert(cfg.label_font_family@ == spec_label_font_family(raw));
        assert(cfg.label_color@ == spec_label_color(raw));
        assert forall|i: int| 0 <= i < out.texts@.len() implies out.texts@[i].font_size@
            == spec_label_font_size(raw) && out.texts@[i].font_family@ == spec_label_font_family(
            raw,
        ) && out.texts@[i].fill@ == spec_label_color(raw) by {
            assert(out.texts@[i].x == labels@[i].0);
            assert(out.texts@[i].font_size == cfg.label_font_size);
            assert(out.texts@[i].font_family == cfg.label_font_family);
            assert(out.texts@[i].fill == cfg.label_color);
        }
    }
    out
}

/// The entry point: raw GeoJSON bytes and a raw style payload in, raw SVG
/// bytes or a text error message out.  A payload that does not parse means
/// the all-default configuration, never an error; bytes that do not decode
/// as UTF-8, text that does not parse as GeoJSON, and a failed
/// serialization each abort with the host's error message.
pub fn geo<H: Host>(geojson: &Vec<u8>, config: &Vec<u8>, host: &H) -> Result<Vec<u8>, String> {
    let raw = host.parse_config(config);
    let text = match host.decode_text(geojson) {
        Ok(t) => t,
        Err(e) => {
            return Err(e);
        },
    };
    let doc = match host.parse_document(&text) {
        Ok(d) => d,
        Err(e) => {
            return Err(e);
        },
    };
    let out = transform(&doc, raw, host);
    host.serialize_document(&out)
}

} // verus!

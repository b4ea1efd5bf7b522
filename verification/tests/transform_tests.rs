//! End-to-end tests of the transform pipeline, with a host that supplies
//! real binary64 arithmetic, formatting, parsing and serialization.

use geosvg::config::{RawConfig, ViewBox};
use geosvg::document::SvgDocument;
use geosvg::geometry::{Feature, GeoDocument, Geometry, Property, PropertyValue};
use geosvg::host::Host;
use geosvg::pipeline::{geo, transform};

struct RealHost;

fn num_string(v: &serde_json::Value) -> Option<String> {
    v.as_f64().map(|f| format!("{}", f))
}

fn opt_string(obj: &serde_json::Map<String, serde_json::Value>, key: &str) -> Result<Option<String>, ()> {
    match obj.get(key) {
        None => Ok(None),
        Some(serde_json::Value::Null) => Ok(None),
        Some(v) => match v.as_str() {
            Some(s) => Ok(Some(s.to_string())),
            None => Err(()),
        },
    }
}

fn parse_config_value(bytes: &[u8]) -> Option<RawConfig> {
    let v: serde_json::Value = serde_json::from_slice(bytes).ok()?;
    let obj = v.as_object()?;
    let stroke = obj.get("stroke")?.as_str()?.to_string();
    let stroke_width = num_string(obj.get("stroke_width")?)?;
    let fill = obj.get("fill")?.as_str()?.to_string();
    let fill_opacity = num_string(obj.get("fill_opacity")?)?;
    let viewbox = match obj.get("viewbox") {
        None => None,
        Some(serde_json::Value::Null) => None,
        Some(a) => {
            let arr = a.as_array()?;
            if arr.len() != 4 {
                return None;
            }
            Some(ViewBox {
                min_x: num_string(&arr[0])?,
                min_y: num_string(&arr[1])?,
                width: num_string(&arr[2])?,
                height: num_string(&arr[3])?,
            })
        },
    };
    let label_color = opt_string(obj, "label_color").ok()?;
    let label_font_family = opt_string(obj, "label_font_family").ok()?;
    let label_font_size = match obj.get("label_font_size") {
        None => None,
        Some(serde_json::Value::Null) => None,
        Some(v) => Some(num_string(v)?),
    };
    let show_labels = match obj.get("show_labels") {
        None => None,
        Some(serde_json::Value::Null) => None,
        Some(v) => Some(v.as_bool()?),
    };
    Some(RawConfig {
        stroke,
        stroke_width,
        fill,
        fill_opacity,
        viewbox,
        label_color,
        label_font_size,
        label_font_family,
        show_labels,
    })
}

fn conv_pos(p: &geojson::Position) -> Vec<u64> {
    p.as_slice().iter().map(|x| x.to_bits()).collect()
}

fn conv_value(v: &geojson::Value) -> Geometry {
    match v {
        geojson::Value::Point { coordinates: p } => Geometry::Point(conv_pos(p)),
        geojson::Value::MultiPoint { coordinates: ps } => Geometry::MultiPoint(ps.iter().map(conv_pos).collect()),
        geojson::Value::LineString { coordinates: ps } => Geometry::LineString(ps.iter().map(conv_pos).collect()),
        geojson::Value::MultiLineString { coordinates: rs } => Geometry::MultiLineString(
            rs.iter().map(|r| r.iter().map(conv_pos).collect()).collect(),
        ),
        geojson::Value::Polygon { coordinates: rs } => Geometry::Polygon(
            rs.iter().map(|r| r.iter().map(conv_pos).collect()).collect(),
        ),
        geojson::Value::MultiPolygon { coordinates: pps } => Geometry::MultiPolygon(
            pps.iter()
                .map(|p| p.iter().map(|r| r.iter().map(conv_pos).collect()).collect())
                .collect(),
        ),
        geojson::Value::GeometryCollection { geometries: gs } => Geometry::GeometryCollection(
            gs.iter().map(|g| conv_value(&g.value)).collect(),
        ),
    }
}

fn conv_feature(f: &geojson::Feature) -> Feature {
    Feature {
        geometry: f.geometry.as_ref().map(|g| conv_value(&g.value)),
        properties: f.properties.as_ref().map(|m| {
            m.iter()
                .map(|(k, v)| Property {
                    key: k.clone(),
                    value: match v.as_str() {
                        Some(s) => PropertyValue::Text(s.to_string()),
                        None => PropertyValue::Other,
                    },
                })
                .collect()
        }),
    }
}

fn conv_doc(gj: &geojson::GeoJson) -> GeoDocument {
    match gj {
        geojson::GeoJson::FeatureCollection(fc) => {
            GeoDocument::FeatureCollection(fc.features.iter().map(conv_feature).collect())
        },
        geojson::GeoJson::Geometry(g) => GeoDocument::Geometry(conv_value(&g.value)),
        geojson::GeoJson::Feature(f) => GeoDocument::Feature(conv_feature(f)),
    }
}

impl Host for RealHost {
    fn format_number(&self, bits: u64) -> String {
        format!("{}", f64::from_bits(bits))
    }

    fn format_path_number(&self, bits: u64) -> String {
        format!("{}", f64::from_bits(bits) as f32)
    }

    fn pad_axis(&self, lo: u64, hi: u64) -> (u64, u64, u64) {
        let l = f64::from_bits(lo);
        let h = f64::from_bits(hi);
        let w = h - l;
        let p = w * 0.1;
        ((l - p).to_bits(), (h + p).to_bits(), (w + 2.0 * p).to_bits())
    }

    fn mean_point(&self, pts: &Vec<(u64, u64)>) -> (u64, u64) {
        let mut tx: f64 = 0.0;
        let mut ty: f64 = 0.0;
        let mut n: usize = 0;
        for (x, y) in pts {
            tx += f64::from_bits(*x);
            ty += f64::from_bits(*y);
            n += 1;
        }
        if n > 0 {
            ((tx / n as f64).to_bits(), (ty / n as f64).to_bits())
        } else {
            (0u64, 0u64)
        }
    }

    fn parse_config(&self, bytes: &Vec<u8>) -> Option<RawConfig> {
        parse_config_value(bytes)
    }

    fn decode_text(&self, bytes: &Vec<u8>) -> Result<String, String> {
        String::from_utf8(bytes.clone()).map_err(|e| e.to_string())
    }

    fn parse_document(&self, text: &String) -> Result<GeoDocument, String> {
        let gj = text.parse::<geojson::GeoJson>().map_err(|e| e.to_string())?;
        Ok(conv_doc(&gj))
    }

    fn serialize_document(&self, doc: &SvgDocument) -> Result<Vec<u8>, String> {
        let mut out = svg::Document::new().set("viewBox", doc.viewbox.clone()).add(
            svg::node::element::Path::new()
                .set("fill", doc.fill.clone())
                .set("fill-opacity", doc.fill_opacity.clone())
                .set("stroke", doc.stroke.clone())
                .set("stroke-width", doc.stroke_width.clone())
                .set("d", doc.path_data.clone()),
        );
        for t in &doc.texts {
            out = out.add(
                svg::node::element::Text::new(t.content.clone())
                    .set("x", t.x.clone())
                    .set("y", t.y.clone())
                    .set("font-size", t.font_size.clone())
                    .set("font-family", t.font_family.clone())
                    .set("fill", t.fill.clone())
                    .set("text-anchor", "middle")
                    .set("dominant-baseline", "middle"),
            );
        }
        let mut buf: Vec<u8> = Vec::new();
        svg::write(&mut buf, &out).map_err(|e| e.to_string())?;
        Ok(buf)
    }
}

fn coord(x: f64, y: f64) -> Vec<u64> {
    vec![x.to_bits(), y.to_bits()]
}

fn square_ring() -> Vec<Vec<u64>> {
    vec![coord(0.0, 0.0), coord(0.0, 2.0), coord(2.0, 2.0), coord(2.0, 0.0)]
}

fn named_square_feature(name_key: &str, name: &str) -> Feature {
    Feature {
        geometry: Some(Geometry::Polygon(vec![square_ring()])),
        properties: Some(vec![Property {
            key: name_key.to_string(),
            value: PropertyValue::Text(name.to_string()),
        }]),
    }
}

fn viewbox_of(svg_bytes: &[u8]) -> String {
    let text = String::from_utf8(svg_bytes.to_vec()).unwrap();
    let start = text.find("viewBox=\"").unwrap() + "viewBox=\"".len();
    let rest = &text[start..];
    let end = rest.find('"').unwrap();
    rest[..end].to_string()
}

#[test]
fn centroid_of_square_places_label() {
    let doc = GeoDocument::FeatureCollection(vec![named_square_feature("name", "A")]);
    let out = transform(&doc, None, &RealHost);
    assert_eq!(out.texts.len(), 1);
    assert_eq!(out.texts[0].x, "1");
    assert_eq!(out.texts[0].y, "-1");
    assert_eq!(out.texts[0].content, "A");
    assert_eq!(out.texts[0].fill, "black");
    assert_eq!(out.texts[0].font_size, "0.3");
    assert_eq!(out.texts[0].font_family, "Arial");
}

#[test]
fn explicit_viewbox_is_used_exactly() {
    let raw = RawConfig {
        stroke: "black".to_string(),
        stroke_width: "0.05".to_string(),
        fill: "red".to_string(),
        fill_opacity: "0.5".to_string(),
        viewbox: Some(ViewBox {
            min_x: "1.5".to_string(),
            min_y: "-2.5".to_string(),
            width: "3".to_string(),
            height: "4".to_string(),
        }),
        label_color: None,
        label_font_size: None,
        label_font_family: None,
        show_labels: None,
    };
    let doc = GeoDocument::FeatureCollection(vec![named_square_feature("name", "A")]);
    let out = transform(&doc, Some(raw), &RealHost);
    assert_eq!(out.viewbox, "1.5 -2.5 3 4");
}

#[test]
fn fallback_viewbox_without_coordinates() {
    let doc = GeoDocument::FeatureCollection(vec![]);
    let out = transform(&doc, None, &RealHost);
    assert_eq!(out.viewbox, "0 0 100 100");
    assert_eq!(out.path_data, "");
    assert_eq!(out.texts.len(), 0);
}

#[test]
fn single_point_viewport_floors_at_one() {
    let doc = GeoDocument::FeatureCollection(vec![Feature {
        geometry: Some(Geometry::Polygon(vec![vec![coord(5.0, 7.0)]])),
        properties: None,
    }]);
    let out = transform(&doc, None, &RealHost);
    assert_eq!(out.viewbox, "5 -7 1 1");
}

#[test]
fn linestring_feeds_bounds_but_draws_nothing() {
    let doc = GeoDocument::FeatureCollection(vec![Feature {
        geometry: Some(Geometry::LineString(vec![coord(0.0, 0.0), coord(10.0, 10.0)])),
        properties: Some(vec![Property {
            key: "name".to_string(),
            value: PropertyValue::Text("L".to_string()),
        }]),
    }]);
    let out = transform(&doc, None, &RealHost);
    assert_eq!(out.path_data, "");
    assert_eq!(out.texts.len(), 0);
    assert_eq!(out.viewbox, "-1 -11 12 12");
}

#[test]
fn bare_geometry_document_draws_nothing_but_bounds_count() {
    let doc = GeoDocument::Geometry(Geometry::Polygon(vec![square_ring()]));
    let out = transform(&doc, None, &RealHost);
    assert_eq!(out.path_data, "");
    assert_eq!(out.texts.len(), 0);
    let expect_pad = 2.0 * 0.1;
    let expect_w = 2.0 + 2.0 * expect_pad;
    assert_eq!(
        out.viewbox,
        format!("{} {} {} {}", -expect_pad, -(2.0 + expect_pad), expect_w, expect_w)
    );
}

#[test]
fn path_data_square_commands() {
    let doc = GeoDocument::FeatureCollection(vec![named_square_feature("name", "A")]);
    let out = transform(&doc, None, &RealHost);
    assert_eq!(out.path_data, "M0,-0 L0,-2 L2,-2 L2,-0 z");
}

#[test]
fn path_numbers_use_binary32() {
    let doc = GeoDocument::FeatureCollection(vec![Feature {
        geometry: Some(Geometry::Polygon(vec![vec![
            coord(1.23456789, 0.0),
            coord(2.0, 1.0),
            coord(3.0, 1.0),
        ]])),
        properties: None,
    }]);
    let out = transform(&doc, None, &RealHost);
    assert_eq!(out.path_data, "M1.2345679,-0 L2,-1 L3,-1 z");
}

#[test]
fn multipolygon_labels_first_polygon() {
    let far_ring: Vec<Vec<u64>> = vec![coord(10.0, 10.0), coord(10.0, 12.0), coord(12.0, 12.0), coord(12.0, 10.0)];
    let doc = GeoDocument::FeatureCollection(vec![Feature {
        geometry: Some(Geometry::MultiPolygon(vec![vec![square_ring()], vec![far_ring]])),
        properties: Some(vec![Property {
            key: "name".to_string(),
            value: PropertyValue::Text("M".to_string()),
        }]),
    }]);
    let out = transform(&doc, None, &RealHost);
    assert_eq!(out.texts.len(), 1);
    assert_eq!(out.texts[0].x, "1");
    assert_eq!(out.texts[0].y, "-1");
}

#[test]
fn multipolygon_without_polygons_gets_no_label() {
    let doc = GeoDocument::FeatureCollection(vec![Feature {
        geometry: Some(Geometry::MultiPolygon(vec![])),
        properties: Some(vec![Property {
            key: "name".to_string(),
            value: PropertyValue::Text("M".to_string()),
        }]),
    }]);
    let out = transform(&doc, None, &RealHost);
    assert_eq!(out.texts.len(), 0);
    assert_eq!(out.path_data, "");
}

#[test]
fn show_labels_false_hides_labels() {
    let raw = RawConfig {
        stroke: "black".to_string(),
        stroke_width: "0.05".to_string(),
        fill: "red".to_string(),
        fill_opacity: "0.5".to_string(),
        viewbox: None,
        label_color: None,
        label_font_size: None,
        label_font_family: None,
        show_labels: Some(false),
    };
    let doc = GeoDocument::FeatureCollection(vec![named_square_feature("name", "A")]);
    let out = transform(&doc, Some(raw), &RealHost);
    assert_eq!(out.texts.len(), 0);
    assert!(out.path_data.starts_with("M"));
}

fn square_geojson_bytes() -> Vec<u8> {
    br#"{"type":"FeatureCollection","features":[{"type":"Feature","properties":{"name":"A"},"geometry":{"type":"Polygon","coordinates":[[[0.0,0.0],[0.0,2.0],[2.0,2.0],[2.0,0.0]]]}}]}"#
        .to_vec()
}

#[test]
fn malformed_config_equals_omitted_config() {
    let gj = square_geojson_bytes();
    let with_garbage = geo(&gj, &br#"{"stroke": "#.to_vec(), &RealHost).unwrap();
    let with_empty = geo(&gj, &Vec::new(), &RealHost).unwrap();
    let with_missing_fields = geo(&gj, &br#"{"stroke":"blue"}"#.to_vec(), &RealHost).unwrap();
    let with_wrong_type = geo(&gj, &br#"{"stroke":"blue","stroke_width":"wide","fill":"red","fill_opacity":0.5}"#.to_vec(), &RealHost).unwrap();
    assert_eq!(with_garbage, with_empty);
    assert_eq!(with_missing_fields, with_empty);
    assert_eq!(with_wrong_type, with_empty);
}

#[test]
fn geo_produces_styled_svg() {
    let gj = square_geojson_bytes();
    let cfg = br#"{"stroke":"blue","stroke_width":5,"fill":"green","fill_opacity":0.25}"#.to_vec();
    let out = geo(&gj, &cfg, &RealHost).unwrap();
    let text = String::from_utf8(out).unwrap();
    assert!(text.contains("stroke=\"blue\""));
    assert!(text.contains("stroke-width=\"5\""));
    assert!(text.contains("fill=\"green\""));
    assert!(text.contains("fill-opacity=\"0.25\""));
    assert!(text.contains("M0,-0 L0,-2 L2,-2 L2,-0 z"));
    assert!(text.contains("A\n</text>"));
}

#[test]
fn viewbox_roundtrip_explicit() {
    let gj = square_geojson_bytes();
    let cfg =
        br#"{"stroke":"black","stroke_width":0.05,"fill":"red","fill_opacity":0.5,"viewbox":[1.25,-2.5,3.75,4.5]}"#
            .to_vec();
    let out = geo(&gj, &cfg, &RealHost).unwrap();
    let vb = viewbox_of(&out);
    let parts: Vec<f64> = vb.split(' ').map(|s| s.parse::<f64>().unwrap()).collect();
    assert_eq!(parts, vec![1.25, -2.5, 3.75, 4.5]);
}

#[test]
fn viewbox_roundtrip_derived() {
    let gj = square_geojson_bytes();
    let out = geo(&gj, &Vec::new(), &RealHost).unwrap();
    let vb = viewbox_of(&out);
    let parts: Vec<f64> = vb.split(' ').map(|s| s.parse::<f64>().unwrap()).collect();
    let w: f64 = 2.0;
    let p = w * 0.1;
    assert_eq!(parts, vec![0.0 - p, -(2.0 + p), w + 2.0 * p, w + 2.0 * p]);
}

#[test]
fn invalid_utf8_is_a_decoding_error() {
    let bad = vec![0xffu8, 0xfe, 0xfd];
    let r = geo(&bad, &Vec::new(), &RealHost);
    assert!(r.is_err());
    assert!(r.unwrap_err().contains("utf-8"));
}

#[test]
fn invalid_geojson_is_a_parse_error() {
    let bad = b"{\"type\":\"Nonsense\"}".to_vec();
    let r = geo(&bad, &Vec::new(), &RealHost);
    assert!(r.is_err());
}

#[test]
fn label_priority_upper_name_over_label() {
    let doc = GeoDocument::FeatureCollection(vec![Feature {
        geometry: Some(Geometry::Polygon(vec![square_ring()])),
        properties: Some(vec![
            Property { key: "NAME".to_string(), value: PropertyValue::Text("Foo".to_string()) },
            Property { key: "label".to_string(), value: PropertyValue::Text("Bar".to_string()) },
        ]),
    }]);
    let out = transform(&doc, None, &RealHost);
    assert_eq!(out.texts.len(), 1);
    assert_eq!(out.texts[0].content, "Foo");
}

#[test]
fn geometry_collection_feeds_bounds() {
    let doc = GeoDocument::FeatureCollection(vec![Feature {
        geometry: Some(Geometry::GeometryCollection(vec![
            Geometry::Point(coord(0.0, 0.0)),
            Geometry::GeometryCollection(vec![Geometry::Point(coord(2.0, 2.0))]),
        ])),
        properties: None,
    }]);
    let out = transform(&doc, None, &RealHost);
    assert_eq!(out.viewbox, "-0.2 -2.2 2.4 2.4");
}

//! The document assembler: the final tree — one path element carrying the
//! accumulated path data, and zero or more text elements — together with
//! the text forms of the path data and the viewport attribute.

use vstd::prelude::*;
use vstd::string::StringExecFns;
use crate::config::{StyleConfig, ViewBox};

verus! {

broadcast use vstd::seq::group_seq_axioms, vstd::std_specs::vec::group_vec_axioms;

/// One path-data drawing command with its parameters already in decimal
/// form.
pub enum TextPathCmd {
    MoveTo(String, String),
    LineTo(String, String),
    ClosePath,
}

/// One text element of the output document.
pub struct TextElement {
    pub x: String,
    pub y: String,
    pub font_size: String,
    pub font_family: String,
    pub fill: String,
    pub content: String,
}

/// The output document: the viewport attribute, the path element's style
/// attributes and path data, and the text elements.
pub struct SvgDocument {
    pub viewbox: String,
    pub fill: String,
    pub fill_opacity: String,
    pub stroke: String,
    pub stroke_width: String,
    pub path_data: String,
    pub texts: Vec<TextElement>,
}

/// The text of one drawing command: its letter, then its parameters joined
/// by a comma.
pub open spec fn spec_cmd_text(c: TextPathCmd) -> Seq<char> {
    match c {
        TextPathCmd::MoveTo(x, y) => "M"@ + x@ + ","@ + y@,
        TextPathCmd::LineTo(x, y) => "L"@ + x@ + ","@ + y@,
        TextPathCmd::ClosePath => "z"@,
    }
}

/// The text of a command sequence: the commands' texts joined by a space.
pub open spec fn spec_path_data(cs: Seq<TextPathCmd>) -> Seq<char>
    decreases cs.len(),
{
    if cs.len() == 0 {
        Seq::empty()
    } else if cs.len() == 1 {
        spec_cmd_text(cs[0])
    } else {
        spec_path_data(cs.drop_last()) + " "@ + spec_cmd_text(cs.last())
    }
}

/// The viewport attribute: the four numbers joined by a space.
pub open spec fn spec_viewbox_attr(vb: ViewBox) -> Seq<char> {
    vb.min_x@ + " "@ + vb.min_y@ + " "@ + vb.width@ + " "@ + vb.height@
}

/// A non-empty command sequence has non-empty text: every command's text
/// starts with its letter.
pub proof fn lemma_path_data_nonempty(cs: Seq<TextPathCmd>)
    requires
        cs.len() > 0,
    ensures
        spec_path_data(cs).len() > 0,
    decreases cs.len(),
{
    reveal_strlit("M");
    reveal_strlit("L");
    reveal_strlit("z");
    if cs.len() == 1 {
        assert(spec_cmd_text(cs[0]).len() > 0);
    } else {
        lemma_path_data_nonempty(cs.drop_last());
    }
}

/// Joins a command sequence into the path-data attribute text.
#[verifier::loop_isolation(false)]
pub fn join_path_data(cs: &Vec<TextPathCmd>) -> (d: String)
    ensures
        d@ == spec_path_data(cs@),
{
    let mut d = String::new();
    let mut i: usize = 0;
    while i < cs.len()
        invariant
            i <= cs.len(),
            d@ == spec_path_data(cs@.subrange(0, i as int)),
        decreases cs.len() - i,
    {
        if i > 0 {
            d.append(" ");
        }
        match &cs[i] {
            TextPathCmd::MoveTo(x, y) => {
                d.append("M");
                d.append(x.as_str());
                d.append(",");
                d.append(y.as_str());
            },
            TextPathCmd::LineTo(x, y) => {
                d.append("L");
                d.append(x.as_str());
                d.append(",");
                d.append(y.as_str());
            },
            TextPathCmd::ClosePath => {
                d.append("z");
            },
        }
        proof {
            let pre = cs@.subrange(0, i as int);
            let now = cs@.subrange(0, i + 1 as int);
            assert(now.drop_last() =~= pre);
            assert(now.last() == cs@[i as int]);
            assert(d@ =~= spec_path_data(now));
        }
        i += 1;
    }
    proof {
        assert(cs@.subrange(0, cs@.len() as int) =~= cs@);
    }
    d
}

/// Joins a viewport into its attribute text.
pub fn viewbox_attr(vb: &ViewBox) -> (r: String)
    ensures
        r@ == spec_viewbox_attr(*vb),
{
    let mut r = vb.min_x.clone();
    r.append(" ");
    r.append(vb.min_y.as_str());
    r.append(" ");
    r.append(vb.width.as_str());
    r.append(" ");
    r.append(vb.height.as_str());
    proof {
        assert(r@ =~= spec_viewbox_attr(*vb));
    }
    r
}

/// Composes the final tree: the path element always, its style attributes
/// verbatim from the configuration, and one text element per label exactly
/// when labels are shown.
#[verifier::loop_isolation(false)]
pub fn assemble_document(
    cfg: StyleConfig,
    viewbox: String,
    path_data: String,
    labels: Vec<(String, String, String)>,
) -> (doc: SvgDocument)
    ensures
        doc.viewbox == viewbox,
        doc.fill == cfg.fill,
        doc.fill_opacity == cfg.fill_opacity,
        doc.stroke == cfg.stroke,
        doc.stroke_width == cfg.stroke_width,
        doc.path_data == path_data,
        cfg.show_labels ==> doc.texts@.len() == labels@.len(),
        !cfg.show_labels ==> doc.texts@.len() == 0,
        forall|i: int|
            0 <= i < doc.texts@.len() ==> {
                &&& doc.texts@[i].x == labels@[i].0
                &&& doc.texts@[i].y == labels@[i].1
                &&& doc.texts@[i].content == labels@[i].2
                &&& doc.texts@[i].font_size == cfg.label_font_size
                &&& doc.texts@[i].font_family == cfg.label_font_family
                &&& doc.texts@[i].fill == cfg.label_color
            },
{
    let mut texts: Vec<TextElement> = Vec::new();
    if cfg.show_labels {
        let mut i: usize = 0;
        while i < labels.len()
            invariant
                i <= labels.len(),
                texts@.len() == i,
                forall|j: int|
                    0 <= j < i ==> {
                        &&& texts@[j].x == labels@[j].0
                        &&& texts@[j].y == labels@[j].1
                        &&& texts@[j].content == labels@[j].2
                        &&& texts@[j].font_size == cfg.label_font_size
                        &&& texts@[j].font_family == cfg.label_font_family
                        &&& texts@[j].fill == cfg.label_color
                    },
            decreases labels.len() - i,
        {
            let entry = &labels[i];
            texts.push(
                TextElement {
                    x: entry.0.clone(),
                    y: entry.1.clone(),
                    font_size: cfg.label_font_size.clone(),
                    font_family: cfg.label_font_family.clone(),
                    fill: cfg.label_color.clone(),
                    content: entry.2.clone(),
                },
            );
            i += 1;
        }
    }
    SvgDocument {
        viewbox,
        fill: cfg.fill,
        fill_opacity: cfg.fill_opacity,
        stroke: cfg.stroke,
        stroke_width: cfg.stroke_width,
        path_data,
        texts,
    }
}

} // verus!

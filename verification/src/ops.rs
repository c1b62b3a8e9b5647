//! The drawing operations the layout engine emits.  A document is laid out
//! as an ordered list of these plain values; the document writer turns the
//! list into PDF bytes.  Coordinates are PDF user-space units with the
//! origin at the lower left and y growing upward.
use vstd::prelude::*;
use crate::properties::Rgb;

verus! {

/// Which font of the resolved bundle a text run is drawn with.
#[derive(Debug, Clone, Copy, PartialEq, Eq, Structural)]
pub enum FontSel {
    Normal,
    Bold,
    FallbackNormal,
    FallbackBold,
}

/// One text run together with the font selected for its script.
pub struct StyledRun {
    pub font: FontSel,
    pub text: String,
}

/// The mathematical value of a styled run.
#[verifier::ext_equal]
pub struct RunV {
    pub font: FontSel,
    pub text: Seq<char>,
}

impl View for StyledRun {
    type V = RunV;

    open spec fn view(&self) -> RunV {
        RunV { font: self.font, text: self.text@ }
    }
}

/// The runs of a vector, as mathematical values.
pub open spec fn runs_view(s: Seq<StyledRun>) -> Seq<RunV> {
    s.map_values(|r: StyledRun| r@)
}

/// One drawing operation on the page.
pub enum DrawOp {
    /// Text runs written left to right, starting at (x, y), each run in
    /// its own font, all at the given size in points.
    Text { x: i128, y: i128, size: u32, runs: Vec<StyledRun> },
    /// A horizontal rule from x1 to x2 at height y.
    Line { x1: i128, x2: i128, y: i128 },
    /// A filled rectangle with lower-left corner (x, y).
    Rect { x: i128, y: i128, w: i128, h: i128, color: Rgb },
    /// A stroked, unfilled rectangle (a checkbox or a blank).
    Frame { x: i128, y: i128, w: i128, h: i128 },
    /// A raster image placed with its lower-left corner at (x, y) and
    /// scaled to w by h page units.
    Image { x: i128, y: i128, w: i128, h: i128, data: Vec<u8> },
}

/// The mathematical value of a drawing operation.
#[verifier::ext_equal]
pub enum OpV {
    Text { x: int, y: int, size: u32, runs: Seq<RunV> },
    Line { x1: int, x2: int, y: int },
    Rect { x: int, y: int, w: int, h: int, color: Rgb },
    Frame { x: int, y: int, w: int, h: int },
    Image { x: int, y: int, w: int, h: int, data: Seq<u8> },
}

impl View for DrawOp {
    type V = OpV;

    open spec fn view(&self) -> OpV {
        match self {
            DrawOp::Text { x, y, size, runs } => OpV::Text {
                x: *x as int,
                y: *y as int,
                size: *size,
                runs: runs_view(runs@),
            },
            DrawOp::Line { x1, x2, y } => OpV::Line { x1: *x1 as int, x2: *x2 as int, y: *y as int },
            DrawOp::Rect { x, y, w, h, color } => OpV::Rect {
                x: *x as int,
                y: *y as int,
                w: *w as int,
                h: *h as int,
                color: *color,
            },
            DrawOp::Frame { x, y, w, h } => OpV::Frame {
                x: *x as int,
                y: *y as int,
                w: *w as int,
                h: *h as int,
            },
            DrawOp::Image { x, y, w, h, data } => OpV::Image {
                x: *x as int,
                y: *y as int,
                w: *w as int,
                h: *h as int,
                data: data@,
            },
        }
    }
}

/// The operations of a vector, as mathematical values.
pub open spec fn ops_view(s: Seq<DrawOp>) -> Seq<OpV> {
    s.map_values(|o: DrawOp| o@)
}

/// The view of a concatenation is the concatenation of the views.
pub proof fn lemma_ops_view_concat(a: Seq<DrawOp>, b: Seq<DrawOp>)
    ensures
        ops_view(a + b) == ops_view(a) + ops_view(b),
{
    assert(ops_view(a + b) =~= ops_view(a) + ops_view(b));
}

/// Whether the document writer can decode the given bytes as a raster
/// image.  Names the success of lopdf's image decoding, which depends on
/// the bytes alone.
pub uninterp spec fn raster_decodes(data: Seq<u8>) -> bool;

/// Whether the writer can serialize one operation: an image operation asks
/// for decodable bytes; every other operation always serializes.
pub open spec fn image_op_decodes(op: OpV) -> bool {
    match op {
        OpV::Image { data, .. } => raster_decodes(data),
        _ => true,
    }
}

/// Whether the writer can serialize the whole operation list.
pub open spec fn images_decode(v: Seq<OpV>) -> bool {
    forall|i: int| 0 <= i < v.len() ==> image_op_decodes(#[trigger] v[i])
}

/// Serializability splits over concatenation.
pub broadcast proof fn lemma_images_decode_concat(a: Seq<OpV>, b: Seq<OpV>)
    ensures
        #[trigger] images_decode(a + b) <==> images_decode(a) && images_decode(b),
{
    if images_decode(a + b) {
        assert forall|i: int| 0 <= i < a.len() implies image_op_decodes(#[trigger] a[i]) by {
            assert((a + b)[i] == a[i]);
        }
        assert forall|i: int| 0 <= i < b.len() implies image_op_decodes(#[trigger] b[i]) by {
            assert((a + b)[a.len() + i] == b[i]);
        }
    }
    if images_decode(a) && images_decode(b) {
        assert forall|i: int| 0 <= i < (a + b).len() implies image_op_decodes(
            #[trigger] (a + b)[i],
        ) by {
            if i < a.len() {
                assert((a + b)[i] == a[i]);
            } else {
                assert((a + b)[i] == b[i - a.len()]);
            }
        }
    }
}

/// The empty list serializes.
pub proof fn lemma_images_decode_empty()
    ensures
        images_decode(Seq::<OpV>::empty()),
{
}

/// A single non-image operation serializes.
pub proof fn lemma_images_decode_one(op: OpV)
    requires
        image_op_decodes(op),
    ensures
        images_decode(seq![op]),
{
    let s = seq![op];
    assert forall|i: int| 0 <= i < s.len() implies image_op_decodes(#[trigger] s[i]) by {
        assert(s[i] == op);
    }
}

/// A pair of non-image operations serializes.
pub proof fn lemma_images_decode_two(a: OpV, b: OpV)
    requires
        image_op_decodes(a),
        image_op_decodes(b),
    ensures
        images_decode(seq![a, b]),
{
    let s = seq![a, b];
    assert forall|i: int| 0 <= i < s.len() implies image_op_decodes(#[trigger] s[i]) by {
        if i == 0 {
            assert(s[i] == a);
        } else {
            assert(s[i] == b);
        }
    }
}

} // verus!

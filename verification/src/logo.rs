//! Logo embedding: detects vector input by its XML or SVG signature,
//! rasterizes it at a pixel density derived from the requested physical
//! size and re-encodes it as PNG; raster input is passed through
//! unchanged.  Either way the result is one image operation at the
//! requested position.
use vstd::prelude::*;
use vstd::slice::{slice_index_get, slice_to_vec};
use crate::errors::PdfError;
use crate::ops::{ops_view, DrawOp, OpV};

verus! {

#[verifier::external_type_specification]
#[verifier::external_body]
pub struct ExSvgTree(resvg::usvg::Tree);

#[verifier::external_type_specification]
#[verifier::external_body]
pub struct ExPixmap(resvg::tiny_skia::Pixmap);

/// Relies on usvg's `Tree::from_data` with default options: parses SVG
/// bytes into a render tree, or fails on data that is not valid SVG.
#[verifier::external_body]
fn svg_parse(data: &[u8]) -> Result<resvg::usvg::Tree, String> {
    resvg::usvg::Tree::from_data(data, &resvg::usvg::Options::default()).map_err(
        |e| format!("{}", e),
    )
}

/// Relies on tiny_skia's `Pixmap::new`: a zeroed pixmap of the given size,
/// and `None` when a dimension is zero or the size is out of range.
#[verifier::external_body]
fn pixmap_new(width: u32, height: u32) -> (r: Option<resvg::tiny_skia::Pixmap>)
    ensures
        r is Some ==> width > 0 && height > 0,
{
    resvg::tiny_skia::Pixmap::new(width, height)
}

/// Relies on resvg's `render`: rasterizes the tree onto the pixmap with
/// the identity transform.
#[verifier::external_body]
fn render_svg(tree: &resvg::usvg::Tree, pixmap: &mut resvg::tiny_skia::Pixmap) {
    resvg::render(tree, resvg::tiny_skia::Transform::identity(), &mut pixmap.as_mut());
}

/// Relies on tiny_skia's `Pixmap::data`: the pixmap's RGBA bytes.
#[verifier::external_body]
fn pixmap_data(pixmap: &resvg::tiny_skia::Pixmap) -> Vec<u8> {
    pixmap.data().to_vec()
}

/// Relies on the image crate's `RgbaImage::from_raw` and
/// `DynamicImage::write_to`: re-encodes raw RGBA pixels as a PNG byte
/// stream, failing when the buffer does not match the dimensions or the
/// encoder fails.
#[verifier::external_body]
fn rgba_to_png(width: u32, height: u32, rgba: Vec<u8>) -> Result<Vec<u8>, String> {
    let img = match image::RgbaImage::from_raw(width, height, rgba) {
        Some(i) => i,
        None => return Err("RGBA buffer does not match the requested size".to_owned()),
    };
    let mut png: Vec<u8> = Vec::new();
    match image::DynamicImage::ImageRgba8(img).write_to(
        &mut std::io::Cursor::new(&mut png),
        image::ImageFormat::Png,
    ) {
        Ok(()) => Ok(png),
        Err(e) => Err(format!("{}", e)),
    }
}

/// Whether the data starts with the given prefix.
pub open spec fn spec_starts_with(data: Seq<u8>, prefix: Seq<u8>) -> bool {
    data.len() >= prefix.len() && data.take(prefix.len() as int) == prefix
}

/// The XML declaration prefix, the bytes of "<?xml", that marks vector
/// input.
pub open spec fn xml_prefix() -> Seq<u8> {
    seq![60u8, 63u8, 120u8, 109u8, 108u8]
}

/// The SVG tag prefix, the bytes of "<svg", that marks vector input.
pub open spec fn svg_prefix() -> Seq<u8> {
    seq![60u8, 115u8, 118u8, 103u8]
}

/// Whether logo bytes are vector (SVG) input: they begin with an XML
/// declaration or an SVG tag.
pub open spec fn spec_is_svg(data: Seq<u8>) -> bool {
    spec_starts_with(data, xml_prefix()) || spec_starts_with(data, svg_prefix())
}

fn starts_with(data: &[u8], prefix: &[u8]) -> (r: bool)
    ensures
        r == spec_starts_with(data@, prefix@),
{
    if data.len() < prefix.len() {
        return false;
    }
    let mut i: usize = 0;
    while i < prefix.len()
        invariant
            i <= prefix@.len(),
            prefix@.len() <= data@.len(),
            forall|j: int| 0 <= j < i ==> data@[j] == prefix@[j],
        decreases prefix@.len() - i,
    {
        if *slice_index_get(data, i) != *slice_index_get(prefix, i) {
            return false;
        }
        i = i + 1;
    }
    proof {
        assert(data@.take(prefix@.len() as int) =~= prefix@);
    }
    true
}

/// Whether logo bytes are vector input, by signature sniffing.
pub fn is_svg_data(data: &[u8]) -> (r: bool)
    ensures
        r == spec_is_svg(data@),
{
    let mut xml: Vec<u8> = Vec::new();
    xml.push(60);
    xml.push(63);
    xml.push(120);
    xml.push(109);
    xml.push(108);
    let mut svg: Vec<u8> = Vec::new();
    svg.push(60);
    svg.push(115);
    svg.push(118);
    svg.push(103);
    proof {
        assert(xml@ =~= xml_prefix());
        assert(svg@ =~= svg_prefix());
    }
    let r1 = starts_with(data, xml.as_slice());
    let r2 = starts_with(data, svg.as_slice());
    r1 || r2
}

/// A physical size in millimetres converted to page units (points).
pub open spec fn spec_mm_to_units(mm: int) -> int {
    mm * 720 / 254
}

/// Builds the drawing operations for an optional logo at (x, y), sized to
/// the given physical width and height.  Vector input is rasterized at 8
/// pixels per millimetre and re-encoded as PNG; raster input is carried
/// through byte for byte.  No input gives no operations; any decoding,
/// rasterization or re-encoding failure aborts with an image error.
pub fn draw_logo(
    x: i128,
    y: i128,
    image_data: Option<&[u8]>,
    width_mm: u32,
    height_mm: u32,
) -> (r: Result<Vec<DrawOp>, PdfError>)
    requires
        width_mm <= 100_000,
        height_mm <= 100_000,
    ensures
        image_data is None ==> r is Ok && ops_view(r->Ok_0@) == Seq::<OpV>::empty(),
        image_data matches Some(d) && !spec_is_svg(d@) ==> r is Ok,
        r is Err ==> image_data is Some && r->Err_0 is ImageDecode,
        (r is Ok && image_data is Some) ==> {
            let v = ops_view(r->Ok_0@);
            &&& v.len() == 1
            &&& v[0] matches OpV::Image { x: ox, y: oy, w: ow, h: oh, data: png } && ox == x as int
                && oy == y as int && ow == spec_mm_to_units(width_mm as int) && oh
                == spec_mm_to_units(height_mm as int) && (!spec_is_svg(image_data->0@) ==> png
                == image_data->0@)
        },
{
    let data = match image_data {
        None => {
            let empty: Vec<DrawOp> = Vec::new();
            proof {
                assert(ops_view(empty@) =~= Seq::<OpV>::empty());
            }
            return Ok(empty);
        },
        Some(d) => d,
    };
    let w_units = (width_mm as i128) * 720 / 254;
    let h_units = (height_mm as i128) * 720 / 254;
    let png: Vec<u8> = if is_svg_data(data) {
        let pixel_width = width_mm * 8;
        let pixel_height = height_mm * 8;
        let tree = match svg_parse(data) {
            Ok(t) => t,
            Err(m) => return Err(PdfError::ImageDecode(m)),
        };
        let mut pixmap = match pixmap_new(pixel_width, pixel_height) {
            Some(p) => p,
            None => return Err(PdfError::ImageDecode("could not allocate a pixmap".to_owned())),
        };
        render_svg(&tree, &mut pixmap);
        let rgba = pixmap_data(&pixmap);
        match rgba_to_png(pixel_width, pixel_height, rgba) {
            Ok(p) => p,
            Err(m) => return Err(PdfError::ImageDecode(m)),
        }
    } else {
        slice_to_vec(data)
    };
    let mut ops: Vec<DrawOp> = Vec::new();
    ops.push(DrawOp::Image { x, y, w: w_units, h: h_units, data: png });
    proof {
        assert(ops_view(ops@) =~= seq![ops@[0]@]);
    }
    Ok(ops)
}

} // verus!

//! The document writer: turns the layout engine's operation list into PDF
//! bytes through lopdf.  The container serialization is an external
//! collaborator; drawing operations become content-stream operators, font
//! resources and image placements here.
use vstd::prelude::*;
use crate::errors::PdfError;
use crate::fonts::FontBundle;
use crate::ops::{
    image_op_decodes, images_decode, ops_view, raster_decodes, DrawOp, FontSel,
};
use crate::properties::Rgb;
use crate::textfmt::{push_char, push_digits, push_pad2, spec_digits, spec_pad2, unsigned_string};

verus! {

#[verifier::external_type_specification]
#[verifier::external_body]
pub struct ExDocument(lopdf::Document);

#[verifier::external_type_specification]
#[verifier::external_body]
pub struct ExObject(lopdf::Object);

/// A PDF dictionary under construction.  It holds lopdf's key-to-object
/// map, which cannot be declared here by its own name; the writer only
/// fills it and hands it to the document, never reads it back.
#[verifier::external_body]
struct ObjDict {
    inner: lopdf::Dictionary,
}

#[verifier::external_type_specification]
#[verifier::external_body]
pub struct ExStream(lopdf::Stream);

#[verifier::external_type_specification]
#[verifier::external_body]
pub struct ExOperation(lopdf::content::Operation);

/// Relies on lopdf's `Document::with_version`: a new, empty document
/// carrying the given PDF version.
#[verifier::external_body]
fn doc_with_version(version: &str) -> lopdf::Document {
    lopdf::Document::with_version(version)
}

/// Relies on lopdf's `Document::new_object_id`: a fresh object id.
#[verifier::external_body]
fn doc_new_object_id(doc: &mut lopdf::Document) -> (u32, u16) {
    doc.new_object_id()
}

/// Relies on lopdf's `Document::add_object`: stores the object and returns
/// its fresh id.
#[verifier::external_body]
fn doc_add_object(doc: &mut lopdf::Document, object: lopdf::Object) -> (u32, u16) {
    doc.add_object(object)
}

/// Relies on lopdf's public `Document::objects` map: stores the object
/// under the given, previously created id.
#[verifier::external_body]
fn doc_insert_object(doc: &mut lopdf::Document, id: (u32, u16), object: lopdf::Object) {
    doc.objects.insert(id, object);
}

/// Relies on lopdf's `Dictionary::set` on the document trailer: records
/// the catalog as the document root.
#[verifier::external_body]
fn doc_set_root(doc: &mut lopdf::Document, catalog_id: (u32, u16)) {
    doc.trailer.set("Root", catalog_id);
}

/// Relies on lopdf's `Document::compress`: compresses the document's
/// stream objects in place.
#[verifier::external_body]
fn doc_compress(doc: &mut lopdf::Document) {
    doc.compress();
}

/// Relies on lopdf's `Document::save_to`.  Its writer emits the header
/// line "%PDF-<version>" before anything else, so the buffer starts with
/// those bytes.  Saving succeeds: every failure path in lopdf's writer is
/// an io error, which writing into a `Vec` buffer never produces, except
/// the binary-mark guard, which asks for mark bytes of 128 and above — and
/// a document built by this module keeps the fresh mark lopdf creates it
/// with, whose bytes all are.
#[verifier::external_body]
fn doc_save(doc: &mut lopdf::Document) -> (r: Result<Vec<u8>, String>)
    ensures
        r is Ok,
        r matches Ok(b) ==> b@.len() >= 5 && b@.take(5) == pdf_header_magic(),
{
    let mut buffer: Vec<u8> = Vec::new();
    match doc.save_to(&mut buffer) {
        Ok(()) => Ok(buffer),
        Err(e) => Err(format!("{}", e)),
    }
}

/// Relies on lopdf's `Dictionary::new`: an empty dictionary.
#[verifier::external_body]
fn dict_new() -> ObjDict {
    ObjDict { inner: lopdf::Dictionary::new() }
}

/// Relies on lopdf's `Dictionary::set` with a string value, which the
/// `From<&str>` impl stores as a PDF name.
#[verifier::external_body]
fn dict_set_name(d: &mut ObjDict, key: &str, value: &str) {
    d.inner.set(key, value);
}

/// Relies on lopdf's `Dictionary::set` with an integer value.
#[verifier::external_body]
fn dict_set_int(d: &mut ObjDict, key: &str, value: i64) {
    d.inner.set(key, value);
}

/// Relies on lopdf's `Dictionary::set` with an object id, which the
/// `From<ObjectId>` impl stores as a reference.
#[verifier::external_body]
fn dict_set_ref(d: &mut ObjDict, key: &str, id: (u32, u16)) {
    d.inner.set(key, id);
}

/// Relies on lopdf's `Dictionary::set` with a nested dictionary.
#[verifier::external_body]
fn dict_set_dict(d: &mut ObjDict, key: &str, value: ObjDict) {
    d.inner.set(key, value.inner);
}

/// Relies on lopdf's `Dictionary::set` with an arbitrary object value.
#[verifier::external_body]
fn dict_set_obj(d: &mut ObjDict, key: &str, value: lopdf::Object) {
    d.inner.set(key, value);
}

/// Relies on lopdf's `Object::Dictionary` constructor.
#[verifier::external_body]
fn obj_dict(d: ObjDict) -> lopdf::Object {
    lopdf::Object::Dictionary(d.inner)
}

/// Relies on lopdf's `Object::Stream` constructor.
#[verifier::external_body]
fn obj_stream(s: lopdf::Stream) -> lopdf::Object {
    lopdf::Object::Stream(s)
}

/// Relies on lopdf's `Object::Integer` constructor.
#[verifier::external_body]
fn obj_int(v: i64) -> lopdf::Object {
    lopdf::Object::Integer(v)
}

/// Relies on lopdf's `Object::Reference` constructor.
#[verifier::external_body]
fn obj_ref(id: (u32, u16)) -> lopdf::Object {
    lopdf::Object::Reference(id)
}

/// Relies on lopdf's `Object::Array` constructor.
#[verifier::external_body]
fn obj_array(items: Vec<lopdf::Object>) -> lopdf::Object {
    lopdf::Object::Array(items)
}

/// Relies on lopdf's `Object::Name` constructor.
#[verifier::external_body]
fn obj_name(name: &str) -> lopdf::Object {
    lopdf::Object::Name(name.as_bytes().to_vec())
}

/// Relies on lopdf's `Object::string_literal`: a literal PDF string.
#[verifier::external_body]
fn obj_string_literal(s: &str) -> lopdf::Object {
    lopdf::Object::string_literal(s)
}

/// Relies on lopdf's `Operation::new`: a content-stream operation with the
/// given operator and operands.
#[verifier::external_body]
fn op_new(operator: &str, operands: Vec<lopdf::Object>) -> lopdf::content::Operation {
    lopdf::content::Operation::new(operator, operands)
}

/// Relies on lopdf's `Content::encode`: serializes the operations as
/// content-stream bytes.  Encoding succeeds: it writes into a local `Vec`
/// buffer and its only failure paths are io errors, which a `Vec` writer
/// never produces.
#[verifier::external_body]
fn content_encode(operations: Vec<lopdf::content::Operation>) -> (r: Result<Vec<u8>, String>)
    ensures
        r is Ok,
{
    lopdf::content::Content { operations }.encode().map_err(|e| format!("{}", e))
}

/// Relies on lopdf's `Stream::new`: a stream object with the given
/// dictionary and content.
#[verifier::external_body]
fn stream_new(dict: ObjDict, content: Vec<u8>) -> lopdf::Stream {
    lopdf::Stream::new(dict.inner, content)
}

/// Relies on lopdf's `xobject::image_from`: decodes an encoded raster
/// image (through the image crate's format sniffing and decoders) into a
/// ready image XObject stream, or fails on bytes that are no supported
/// raster format.  Whether it succeeds depends on the bytes alone, which
/// `raster_decodes` names.
#[verifier::external_body]
fn image_stream_from(data: &Vec<u8>) -> (r: Result<lopdf::Stream, String>)
    ensures
        r is Ok <==> raster_decodes(data@),
{
    lopdf::xobject::image_from(data.clone()).map_err(|e| format!("{}", e))
}

/// The first five bytes of every PDF file lopdf saves: "%PDF-".
pub open spec fn pdf_header_magic() -> Seq<u8> {
    seq![37u8, 80u8, 68u8, 70u8, 45u8]
}

/// A color channel in hundredths rendered as a PDF real: the whole part,
/// a dot, and two fraction digits.
pub open spec fn spec_channel(c: int) -> Seq<char> {
    spec_digits(c / 100) + seq!['.'] + spec_pad2(c % 100)
}

fn push_channel(c: u8, out: &mut String)
    ensures
        final(out)@ == old(out)@ + spec_channel(c as int),
{
    push_digits((c / 100) as u128, out);
    push_char(out, '.');
    push_pad2(c % 100, out);
    proof {
        assert(final(out)@ =~= old(out)@ + spec_channel(c as int));
    }
}

/// The fill-color operator for a color in hundredths, for example
/// "0.90 0.90 0.90 rg".
pub open spec fn spec_fill_color_operator(c: Rgb) -> Seq<char> {
    spec_channel(c.r as int) + seq![' '] + spec_channel(c.g as int) + seq![' '] + spec_channel(
        c.b as int,
    ) + " rg"@
}

fn fill_color_operator(c: Rgb) -> (r: String)
    ensures
        r@ == spec_fill_color_operator(c),
{
    let mut out = String::new();
    push_channel(c.r, &mut out);
    push_char(&mut out, ' ');
    push_channel(c.g, &mut out);
    push_char(&mut out, ' ');
    push_channel(c.b, &mut out);
    out.append(" rg");
    proof {
        assert(out@ =~= spec_fill_color_operator(c));
    }
    out
}

/// The PDF resource name of each font of the bundle.
fn font_resource_name(sel: FontSel) -> (r: &'static str)
    ensures
        r@ == match sel {
            FontSel::Normal => "F1"@,
            FontSel::Bold => "F2"@,
            FontSel::FallbackNormal => "F3"@,
            FontSel::FallbackBold => "F4"@,
        },
{
    match sel {
        FontSel::Normal => "F1",
        FontSel::Bold => "F2",
        FontSel::FallbackNormal => "F3",
        FontSel::FallbackBold => "F4",
    }
}

/// Registers one Type1 font dictionary with WinAnsi encoding and returns
/// its object id.
fn add_type1_font(doc: &mut lopdf::Document, base_font: &str) -> (u32, u16) {
    let mut d = dict_new();
    dict_set_name(&mut d, "Type", "Font");
    dict_set_name(&mut d, "Subtype", "Type1");
    dict_set_name(&mut d, "BaseFont", base_font);
    dict_set_name(&mut d, "Encoding", "WinAnsiEncoding");
    doc_add_object(doc, obj_dict(d))
}

/// The resource name of the k-th embedded image: "Im" and the index.
fn image_resource_name(k: usize) -> (r: String)
    ensures
        r@ == "Im"@ + spec_digits(k as int),
{
    let mut name = "Im".to_owned();
    let digits = unsigned_string(k as u128);
    name.append(digits.as_str());
    name
}

/// Emits the content-stream operations of one text drawing operation: a
/// text section positioned at (x, y) whose runs are written in turn, each
/// in its own font.
fn emit_text(
    operations: &mut Vec<lopdf::content::Operation>,
    x: i128,
    y: i128,
    size: u32,
    runs: &Vec<crate::ops::StyledRun>,
) {
    operations.push(op_new("BT", Vec::new()));
    let mut td: Vec<lopdf::Object> = Vec::new();
    td.push(obj_int(x as i64));
    td.push(obj_int(y as i64));
    operations.push(op_new("Td", td));
    let mut j: usize = 0;
    while j < runs.len()
        decreases runs@.len() - j,
    {
        let run = &runs[j];
        let mut tf: Vec<lopdf::Object> = Vec::new();
        tf.push(obj_name(font_resource_name(run.font)));
        tf.push(obj_int(size as i64));
        operations.push(op_new("Tf", tf));
        let mut tj: Vec<lopdf::Object> = Vec::new();
        tj.push(obj_string_literal(run.text.as_str()));
        operations.push(op_new("Tj", tj));
        j = j + 1;
    }
    operations.push(op_new("ET", Vec::new()));
}

/// Emits a rectangle path operand list.
fn rect_operands(x: i128, y: i128, w: i128, h: i128) -> Vec<lopdf::Object> {
    let mut re: Vec<lopdf::Object> = Vec::new();
    re.push(obj_int(x as i64));
    re.push(obj_int(y as i64));
    re.push(obj_int(w as i64));
    re.push(obj_int(h as i64));
    re
}

/// Serializes the layout engine's operation list into a one-page PDF with
/// the bundle's faces as the page fonts.  It succeeds exactly when every
/// image operation carries decodable raster bytes — the container assembly
/// itself, writing into a memory buffer, cannot fail — and then the bytes
/// are a non-empty PDF byte stream beginning with the "%PDF-" signature.
/// An undecodable image aborts with an image error.
pub fn write_document(ops: &Vec<DrawOp>, fonts: &FontBundle) -> (r: Result<Vec<u8>, PdfError>)
    ensures
        r is Ok <==> images_decode(ops_view(ops@)),
        r matches Ok(b) ==> b@.len() >= 5 && b@.take(5) == pdf_header_magic(),
        r matches Err(e) ==> e is ImageDecode || e is DocumentWrite,
{
    let mut doc = doc_with_version("1.5");
    let pages_id = doc_new_object_id(&mut doc);

    let f1 = add_type1_font(&mut doc, fonts.normal.as_str());
    let f2 = add_type1_font(&mut doc, fonts.bold.as_str());
    let mut font_dict = dict_new();
    dict_set_ref(&mut font_dict, "F1", f1);
    dict_set_ref(&mut font_dict, "F2", f2);
    if let Some(fallback) = &fonts.normal_fallback {
        let f3 = add_type1_font(&mut doc, fallback.as_str());
        dict_set_ref(&mut font_dict, "F3", f3);
    }
    if let Some(fallback) = &fonts.bold_fallback {
        let f4 = add_type1_font(&mut doc, fallback.as_str());
        dict_set_ref(&mut font_dict, "F4", f4);
    }

    // Translate the drawing operations, registering image XObjects as they
    // appear.
    let mut operations: Vec<lopdf::content::Operation> = Vec::new();
    let mut xobj_dict = dict_new();
    let mut image_count: usize = 0;
    let mut i: usize = 0;
    while i < ops.len()
        invariant
            image_count <= i,
            i <= ops@.len(),
            forall|j: int| 0 <= j < i ==> image_op_decodes(#[trigger] ops_view(ops@)[j]),
        decreases ops@.len() - i,
    {
        match &ops[i] {
            DrawOp::Text { x, y, size, runs } => {
                emit_text(&mut operations, *x, *y, *size, runs);
                proof {
                    assert(image_op_decodes(ops_view(ops@)[i as int]));
                }
            },
            DrawOp::Line { x1, x2, y } => {
                let mut m: Vec<lopdf::Object> = Vec::new();
                m.push(obj_int(*x1 as i64));
                m.push(obj_int(*y as i64));
                operations.push(op_new("m", m));
                let mut l: Vec<lopdf::Object> = Vec::new();
                l.push(obj_int(*x2 as i64));
                l.push(obj_int(*y as i64));
                operations.push(op_new("l", l));
                operations.push(op_new("S", Vec::new()));
                proof {
                    assert(image_op_decodes(ops_view(ops@)[i as int]));
                }
            },
            DrawOp::Rect { x, y, w, h, color } => {
                operations.push(op_new("q", Vec::new()));
                let rg = fill_color_operator(*color);
                operations.push(op_new(rg.as_str(), Vec::new()));
                operations.push(op_new("re", rect_operands(*x, *y, *w, *h)));
                operations.push(op_new("f", Vec::new()));
                operations.push(op_new("Q", Vec::new()));
                proof {
                    assert(image_op_decodes(ops_view(ops@)[i as int]));
                }
            },
            DrawOp::Frame { x, y, w, h } => {
                operations.push(op_new("re", rect_operands(*x, *y, *w, *h)));
                operations.push(op_new("S", Vec::new()));
                proof {
                    assert(image_op_decodes(ops_view(ops@)[i as int]));
                }
            },
            DrawOp::Image { x, y, w, h, data } => {
                let stream = match image_stream_from(data) {
                    Ok(s) => s,
                    Err(m) => {
                        proof {
                            assert(!image_op_decodes(ops_view(ops@)[i as int]));
                            assert(!images_decode(ops_view(ops@)));
                        }
                        return Err(PdfError::ImageDecode(m));
                    },
                };
                proof {
                    assert(image_op_decodes(ops_view(ops@)[i as int]));
                }
                let image_id = doc_add_object(&mut doc, obj_stream(stream));
                let name = image_resource_name(image_count);
                dict_set_ref(&mut xobj_dict, name.as_str(), image_id);
                operations.push(op_new("q", Vec::new()));
                let mut cm: Vec<lopdf::Object> = Vec::new();
                cm.push(obj_int(*w as i64));
                cm.push(obj_int(0));
                cm.push(obj_int(0));
                cm.push(obj_int(*h as i64));
                cm.push(obj_int(*x as i64));
                cm.push(obj_int(*y as i64));
                operations.push(op_new("cm", cm));
                let mut do_operands: Vec<lopdf::Object> = Vec::new();
                do_operands.push(obj_name(name.as_str()));
                operations.push(op_new("Do", do_operands));
                operations.push(op_new("Q", Vec::new()));
                image_count = image_count + 1;
            },
        }
        i = i + 1;
    }
    proof {
        assert(images_decode(ops_view(ops@)));
    }

    let mut resources = dict_new();
    dict_set_dict(&mut resources, "Font", font_dict);
    if image_count > 0 {
        dict_set_dict(&mut resources, "XObject", xobj_dict);
    }
    let resources_id = doc_add_object(&mut doc, obj_dict(resources));

    let content_bytes = match content_encode(operations) {
        Ok(b) => b,
        Err(m) => return Err(PdfError::DocumentWrite(m)),
    };
    let content_id = doc_add_object(&mut doc, obj_stream(stream_new(dict_new(), content_bytes)));

    let mut page = dict_new();
    dict_set_name(&mut page, "Type", "Page");
    dict_set_ref(&mut page, "Parent", pages_id);
    dict_set_ref(&mut page, "Contents", content_id);
    let page_id = doc_add_object(&mut doc, obj_dict(page));

    let mut pages = dict_new();
    dict_set_name(&mut pages, "Type", "Pages");
    let mut kids: Vec<lopdf::Object> = Vec::new();
    kids.push(obj_ref(page_id));
    dict_set_obj(&mut pages, "Kids", obj_array(kids));
    dict_set_int(&mut pages, "Count", 1);
    dict_set_ref(&mut pages, "Resources", resources_id);
    let mut media_box: Vec<lopdf::Object> = Vec::new();
    media_box.push(obj_int(0));
    media_box.push(obj_int(0));
    media_box.push(obj_int(595));
    media_box.push(obj_int(842));
    dict_set_obj(&mut pages, "MediaBox", obj_array(media_box));
    doc_insert_object(&mut doc, pages_id, obj_dict(pages));

    let mut catalog = dict_new();
    dict_set_name(&mut catalog, "Type", "Catalog");
    dict_set_ref(&mut catalog, "Pages", pages_id);
    let catalog_id = doc_add_object(&mut doc, obj_dict(catalog));
    doc_set_root(&mut doc, catalog_id);
    doc_compress(&mut doc);

    match doc_save(&mut doc) {
        Ok(bytes) => Ok(bytes),
        Err(m) => Err(PdfError::DocumentWrite(m)),
    }
}

} // verus!

//! The invoice layout: header with title, shipper address and document
//! metadata, the two-column address block, the item table with totals, and
//! optional free-text notes.
use vstd::prelude::*;
use vstd::seq_lib::lemma_concat_associative;
use crate::dictionary::Dictionary;
use crate::fonts::{spec_bfb, spec_nfb, FontBundle};
use crate::items::{
    draw_invoice_rows, draw_invoice_table_header, draw_totals_block,
    lemma_invoice_rows_images_ok, lemma_invoice_table_header_images_ok, lemma_totals_block_images_ok,
    spec_invoice_rows, spec_invoice_table_header, spec_totals_block,
};
use crate::layout::{
    draw_addresses, draw_address, draw_bold_text, draw_horizontal_line, draw_text,
    lemma_address_ops_images_ok, lemma_addresses_ops_images_ok, spec_address_ops,
    spec_addresses_line_y, spec_addresses_ops, spec_text_op,
};
use crate::ops::{
    images_decode, lemma_images_decode_concat, lemma_images_decode_empty, lemma_images_decode_one,
    lemma_images_decode_two, lemma_ops_view_concat, ops_view, raster_decodes, DrawOp, OpV,
};
use crate::errors::PdfError;
use crate::fonts::load_fonts;
use crate::logo::draw_logo;
use crate::properties::{DocumentProperties, DocumentPropertiesDefault};
use crate::textfmt::{format_date, spec_date_string};
use crate::types::{Address, Order, OrderLineItem};
use crate::writer::{pdf_header_magic, write_document};

verus! {

/// The invoice header: bold title at the top right, the shipper's address
/// block under the from-label, the document metadata column (invoice
/// number, date, order status) at x 350, and the closing rule at y 630.
pub open spec fn spec_invoice_header(
    d: Dictionary,
    o: Order,
    wh: Address,
    p: DocumentPropertiesDefault,
    nfb: bool,
    bfb: bool,
) -> Seq<OpV> {
    seq![spec_text_op(420, 790, d.invoice_title@, p.font_size_title, true, bfb)]
        + spec_address_ops(
        50,
        750,
        d.from_label@,
        wh,
        p.font_size_label,
        p.font_size_body,
        d.phone_label@,
        d.vat_label@,
        nfb,
        bfb,
    ) + seq![
        spec_text_op(350, 740, d.invoice_number_prefix@ + o.id@, p.font_size_body, false, nfb),
    ] + seq![
        spec_text_op(
            350,
            720,
            d.date_label@ + " "@ + spec_date_string(o.created_at),
            p.font_size_body,
            false,
            nfb,
        ),
    ] + seq![
        spec_text_op(
            350,
            700,
            d.order_status_label@ + " "@ + o.status@,
            p.font_size_body,
            false,
            nfb,
        ),
    ] + seq![(OpV::Line { x1: 50, x2: 545, y: 630 })]
}

/// The item table section: header band and labels, one row per item, the
/// totals block, and the notes lines when the order carries notes.
pub open spec fn spec_invoice_items_section(
    d: Dictionary,
    o: Order,
    items: Seq<OrderLineItem>,
    p: DocumentPropertiesDefault,
    start_y: int,
    nfb: bool,
    bfb: bool,
) -> Seq<OpV> {
    let after_totals = start_y - 165 - 20 * items.len();
    spec_invoice_table_header(
        start_y,
        d.product_header@,
        d.quantity_header@,
        d.unit_price_header@,
        d.discount_label@,
        d.tax_label@,
        d.total_label@,
        p.background_color,
        p.font_size_label,
        bfb,
    ) + spec_invoice_rows(items, start_y - 25, o.currency@, p.font_size_body, nfb)
        + spec_totals_block(
        start_y - 45 - 20 * items.len(),
        o,
        d,
        d.total_label@,
        p.font_size_body,
        nfb,
        bfb,
    ) + (if o.notes is Some {
        seq![
            spec_text_op(50, after_totals - 40, d.notes_label@, p.font_size_body, false, nfb),
            spec_text_op(50, after_totals - 55, o.notes->0@, p.font_size_body, false, nfb),
        ]
    } else {
        Seq::empty()
    })
}

/// Every operation of an invoice page, in drawing order: header, address
/// block, then the item table 40 units under the address rule.
pub open spec fn spec_invoice_ops(
    d: Dictionary,
    o: Order,
    items: Seq<OrderLineItem>,
    wh: Address,
    p: DocumentPropertiesDefault,
    nfb: bool,
    bfb: bool,
) -> Seq<OpV> {
    spec_invoice_header(d, o, wh, p, nfb, bfb) + spec_addresses_ops(
        o.shipping_address,
        o.billing_address,
        d.ship_to_label@,
        d.bill_to_label@,
        p.font_size_label,
        p.font_size_body,
        d.phone_label@,
        d.vat_label@,
        nfb,
        bfb,
    ) + spec_invoice_items_section(
        d,
        o,
        items,
        p,
        spec_addresses_line_y(o.shipping_address, o.billing_address) - 40,
        nfb,
        bfb,
    )
}

/// Lays out a complete invoice page: the logo operations given by the
/// caller come first, then every operation of the page in drawing order,
/// pinned exactly by `spec_invoice_ops`.
#[verifier::rlimit(80)]
pub fn layout_invoice(
    order: &Order,
    order_items: &Vec<OrderLineItem>,
    warehouse_address: &Address,
    props: &DocumentPropertiesDefault,
    translation: &Dictionary,
    fonts: &FontBundle,
    logo_ops: Vec<DrawOp>,
) -> (ops: Vec<DrawOp>)
    requires
        order_items@.len() <= 1_000_000_000,
    ensures
        ops_view(ops@) == ops_view(logo_ops@) + spec_invoice_ops(
            *translation,
            *order,
            order_items@,
            *warehouse_address,
            *props,
            spec_nfb(*fonts),
            spec_bfb(*fonts),
        ),
{
    let ghost d = *translation;
    let ghost o = *order;
    let ghost p = *props;
    let ghost nfb = spec_nfb(*fonts);
    let ghost bfb = spec_bfb(*fonts);

    let mut ops = logo_ops;
    let ghost base = ops_view(ops@);

    // Header: title, shipper address, metadata column, closing rule.
    let mut t = draw_bold_text(420, 790, translation.invoice_title.as_str(), props.font_size_title, fonts);
    proof {
        lemma_ops_view_concat(ops@, t@);
    }
    let ghost mut acc: Seq<OpV> = ops_view(t@);
    ops.append(&mut t);
    proof {
        assert(ops_view(ops@) == base + acc);
    }

    let ghost addr_piece = spec_address_ops(
        50,
        750,
        d.from_label@,
        *warehouse_address,
        p.font_size_label,
        p.font_size_body,
        d.phone_label@,
        d.vat_label@,
        nfb,
        bfb,
    );
    draw_address(props, translation, &mut ops, 50, 750, translation.from_label.as_str(), warehouse_address, fonts);
    proof {
        lemma_concat_associative(base, acc, addr_piece);
        acc = acc + addr_piece;
        assert(ops_view(ops@) == base + acc);
    }

    let mut number_line = translation.invoice_number_prefix.clone();
    number_line.append(order.id.as_str());
    let mut t = draw_text(350, 740, number_line.as_str(), props.font_size_body, fonts);
    proof {
        lemma_ops_view_concat(ops@, t@);
        lemma_concat_associative(base, acc, ops_view(t@));
        acc = acc + ops_view(t@);
    }
    ops.append(&mut t);
    proof {
        assert(ops_view(ops@) == base + acc);
    }

    let mut date_line = translation.date_label.clone();
    date_line.append(" ");
    let date_text = format_date(order.created_at);
    date_line.append(date_text.as_str());
    let mut t = draw_text(350, 720, date_line.as_str(), props.font_size_body, fonts);
    proof {
        lemma_ops_view_concat(ops@, t@);
        lemma_concat_associative(base, acc, ops_view(t@));
        acc = acc + ops_view(t@);
    }
    ops.append(&mut t);
    proof {
        assert(ops_view(ops@) == base + acc);
    }

    let mut status_line = translation.order_status_label.clone();
    status_line.append(" ");
    status_line.append(order.status.as_str());
    let mut t = draw_text(350, 700, status_line.as_str(), props.font_size_body, fonts);
    proof {
        lemma_ops_view_concat(ops@, t@);
        lemma_concat_associative(base, acc, ops_view(t@));
        acc = acc + ops_view(t@);
    }
    ops.append(&mut t);
    proof {
        assert(ops_view(ops@) == base + acc);
    }

    let ghost before_rule = ops@;
    ops.push(draw_horizontal_line(630));
    proof {
        assert(ops_view(ops@) =~= ops_view(before_rule) + seq![(OpV::Line { x1: 50, x2: 545, y: 630 })]);
        lemma_concat_associative(base, acc, seq![(OpV::Line { x1: 50, x2: 545, y: 630 })]);
        acc = acc + seq![(OpV::Line { x1: 50, x2: 545, y: 630 })];
        assert(ops_view(ops@) == base + acc);
        assert(acc == spec_invoice_header(d, o, *warehouse_address, p, nfb, bfb));
    }

    // Two-column address block.
    let (mut addr_ops, line_y) = draw_addresses(
        props,
        translation,
        &order.shipping_address,
        &order.billing_address,
        translation.ship_to_label.as_str(),
        translation.bill_to_label.as_str(),
        fonts,
    );
    proof {
        lemma_ops_view_concat(ops@, addr_ops@);
        lemma_concat_associative(base, acc, ops_view(addr_ops@));
        acc = acc + ops_view(addr_ops@);
    }
    ops.append(&mut addr_ops);
    proof {
        assert(ops_view(ops@) == base + acc);
    }

    // Item table, totals and notes, 40 units under the address rule.
    let items_y = line_y - 40;
    let ghost section = spec_invoice_items_section(d, o, order_items@, p, items_y as int, nfb, bfb);
    let mut sec = draw_invoice_items_at(order, order_items, translation, props, items_y, fonts);
    proof {
        lemma_ops_view_concat(ops@, sec@);
        lemma_concat_associative(base, acc, ops_view(sec@));
        acc = acc + ops_view(sec@);
    }
    ops.append(&mut sec);
    proof {
        assert(ops_view(ops@) == base + acc);
        assert(acc == spec_invoice_ops(d, o, order_items@, *warehouse_address, p, nfb, bfb));
    }
    ops
}

/// Draws the item table section of an invoice at `start_y`.
#[verifier::rlimit(80)]
fn draw_invoice_items_at(
    order: &Order,
    order_items: &Vec<OrderLineItem>,
    translation: &Dictionary,
    props: &DocumentPropertiesDefault,
    start_y: i128,
    fonts: &FontBundle,
) -> (ops: Vec<DrawOp>)
    requires
        order_items@.len() <= 1_000_000_000,
        -1_000_000_000 <= start_y <= 1_000_000_000,
    ensures
        ops_view(ops@) == spec_invoice_items_section(
            *translation,
            *order,
            order_items@,
            *props,
            start_y as int,
            spec_nfb(*fonts),
            spec_bfb(*fonts),
        ),
{
    let ghost d = *translation;
    let ghost o = *order;
    let ghost p = *props;
    let ghost nfb = spec_nfb(*fonts);
    let ghost bfb = spec_bfb(*fonts);

    let mut ops = draw_invoice_table_header(
        start_y,
        translation.product_header.as_str(),
        translation.quantity_header.as_str(),
        translation.unit_price_header.as_str(),
        translation.discount_label.as_str(),
        translation.tax_label.as_str(),
        translation.total_label.as_str(),
        props.background_color,
        props.font_size_label,
        fonts,
    );
    let ghost mut acc: Seq<OpV> = ops_view(ops@);

    let ghost rows_piece = spec_invoice_rows(
        order_items@,
        start_y as int - 25,
        o.currency@,
        p.font_size_body,
        nfb,
    );
    let rows_end = draw_invoice_rows(
        &mut ops,
        order_items,
        start_y - 25,
        order.currency.as_str(),
        props.font_size_body,
        fonts,
    );
    proof {
        acc = acc + rows_piece;
        assert(ops_view(ops@) == acc);
    }

    let ghost totals_piece = spec_totals_block(
        start_y as int - 45 - 20 * order_items@.len(),
        o,
        d,
        d.total_label@,
        p.font_size_body,
        nfb,
        bfb,
    );
    let totals_end = draw_totals_block(
        &mut ops,
        rows_end - 20,
        translation,
        translation.total_label.as_str(),
        order,
        props.font_size_body,
        fonts,
    );
    proof {
        lemma_concat_associative(
            spec_invoice_table_header(
                start_y as int,
                d.product_header@,
                d.quantity_header@,
                d.unit_price_header@,
                d.discount_label@,
                d.tax_label@,
                d.total_label@,
                p.background_color,
                p.font_size_label,
                bfb,
            ),
            rows_piece,
            totals_piece,
        );
        acc = acc + totals_piece;
        assert(ops_view(ops@) == acc);
    }

    let ghost notes_piece: Seq<OpV> = if o.notes is Some {
        seq![
            spec_text_op(
                50,
                start_y as int - 165 - 20 * order_items@.len() - 40,
                d.notes_label@,
                p.font_size_body,
                false,
                nfb,
            ),
            spec_text_op(
                50,
                start_y as int - 165 - 20 * order_items@.len() - 55,
                o.notes->0@,
                p.font_size_body,
                false,
                nfb,
            ),
        ]
    } else {
        Seq::empty()
    };
    if let Some(notes) = &order.notes {
        let notes_y = totals_end - 40;
        let mut t = draw_text(50, notes_y, translation.notes_label.as_str(), props.font_size_body, fonts);
        let mut t2 = draw_text(50, notes_y - 15, notes.as_str(), props.font_size_body, fonts);
        proof {
            lemma_ops_view_concat(t@, t2@);
        }
        t.append(&mut t2);
        proof {
            assert(ops_view(t@) =~= notes_piece);
            lemma_ops_view_concat(ops@, t@);
            acc = acc + notes_piece;
        }
        ops.append(&mut t);
        proof {
            assert(ops_view(ops@) == acc);
        }
    } else {
        proof {
            acc = acc + notes_piece;
            assert(ops_view(ops@) =~= acc);
        }
    }
    proof {
        assert(acc == spec_invoice_items_section(d, o, order_items@, p, start_y as int, nfb, bfb));
    }
    ops
}

proof fn lemma_invoice_header_images_ok(
    d: Dictionary,
    o: Order,
    wh: Address,
    p: DocumentPropertiesDefault,
    nfb: bool,
    bfb: bool,
)
    ensures
        images_decode(spec_invoice_header(d, o, wh, p, nfb, bfb)),
{
    broadcast use lemma_images_decode_concat;

    lemma_images_decode_one(spec_text_op(420, 790, d.invoice_title@, p.font_size_title, true, bfb));
    lemma_address_ops_images_ok(
        50,
        750,
        d.from_label@,
        wh,
        p.font_size_label,
        p.font_size_body,
        d.phone_label@,
        d.vat_label@,
        nfb,
        bfb,
    );
    lemma_images_decode_one(
        spec_text_op(350, 740, d.invoice_number_prefix@ + o.id@, p.font_size_body, false, nfb),
    );
    lemma_images_decode_one(
        spec_text_op(
            350,
            720,
            d.date_label@ + " "@ + spec_date_string(o.created_at),
            p.font_size_body,
            false,
            nfb,
        ),
    );
    lemma_images_decode_one(
        spec_text_op(
            350,
            700,
            d.order_status_label@ + " "@ + o.status@,
            p.font_size_body,
            false,
            nfb,
        ),
    );
    lemma_images_decode_one((OpV::Line { x1: 50, x2: 545, y: 630 }));
}

proof fn lemma_invoice_items_section_images_ok(
    d: Dictionary,
    o: Order,
    items: Seq<OrderLineItem>,
    p: DocumentPropertiesDefault,
    start_y: int,
    nfb: bool,
    bfb: bool,
)
    ensures
        images_decode(spec_invoice_items_section(d, o, items, p, start_y, nfb, bfb)),
{
    broadcast use lemma_images_decode_concat;

    let after_totals = start_y - 165 - 20 * items.len();
    lemma_invoice_table_header_images_ok(
        start_y,
        d.product_header@,
        d.quantity_header@,
        d.unit_price_header@,
        d.discount_label@,
        d.tax_label@,
        d.total_label@,
        p.background_color,
        p.font_size_label,
        bfb,
    );
    lemma_invoice_rows_images_ok(items, start_y - 25, o.currency@, p.font_size_body, nfb);
    lemma_totals_block_images_ok(
        start_y - 45 - 20 * items.len(),
        o,
        d,
        d.total_label@,
        p.font_size_body,
        nfb,
        bfb,
    );
    lemma_images_decode_empty();
    lemma_images_decode_two(
        spec_text_op(50, after_totals - 40, d.notes_label@, p.font_size_body, false, nfb),
        spec_text_op(50, after_totals - 55, o.notes->0@, p.font_size_body, false, nfb),
    );
}

/// An invoice page draws text, rules and bands only: every operation of
/// `spec_invoice_ops` serializes.
pub proof fn lemma_invoice_ops_images_ok(
    d: Dictionary,
    o: Order,
    items: Seq<OrderLineItem>,
    wh: Address,
    p: DocumentPropertiesDefault,
    nfb: bool,
    bfb: bool,
)
    ensures
        images_decode(spec_invoice_ops(d, o, items, wh, p, nfb, bfb)),
{
    broadcast use lemma_images_decode_concat;

    lemma_invoice_header_images_ok(d, o, wh, p, nfb, bfb);
    lemma_addresses_ops_images_ok(
        o.shipping_address,
        o.billing_address,
        d.ship_to_label@,
        d.bill_to_label@,
        p.font_size_label,
        p.font_size_body,
        d.phone_label@,
        d.vat_label@,
        nfb,
        bfb,
    );
    lemma_invoice_items_section_images_ok(
        d,
        o,
        items,
        p,
        spec_addresses_line_y(o.shipping_address, o.billing_address) - 40,
        nfb,
        bfb,
    );
}

/// Laying out the same input twice gives the same operations: the page's
/// operation list is a function of the order data, the labels, the
/// resolved properties and the font bundle alone, so generation carries no
/// wall-clock-derived content.
pub proof fn lemma_layout_is_deterministic(
    d: Dictionary,
    o: Order,
    items: Seq<OrderLineItem>,
    wh: Address,
    p: DocumentPropertiesDefault,
    nfb: bool,
    bfb: bool,
    first: Seq<OpV>,
    second: Seq<OpV>,
)
    requires
        first == spec_invoice_ops(d, o, items, wh, p, nfb, bfb),
        second == spec_invoice_ops(d, o, items, wh, p, nfb, bfb),
    ensures
        first == second,
{
}

/// Generates a complete invoice as PDF bytes: resolves the properties,
/// loads the fonts for the dictionary's language, embeds the optional
/// logo, lays the page out and serializes it.  Without a logo it always
/// succeeds; with a raster logo it succeeds exactly when the bytes decode;
/// only an SVG logo, whose rasterization is the outside renderer's, leaves
/// success open.  On success the bytes begin with the PDF signature;
/// generation is all-or-nothing.
pub fn generate_pdf_invoice(
    order: &Order,
    order_items: &Vec<OrderLineItem>,
    warehouse_address: &Address,
    properties: DocumentProperties,
    translation: Dictionary,
    logo_data: Option<&[u8]>,
    custom_font_normal: Option<&str>,
    custom_font_bold: Option<&str>,
) -> (r: Result<Vec<u8>, PdfError>)
    requires
        order_items@.len() <= 1_000_000_000,
    ensures
        r matches Ok(b) ==> b@.len() >= 5 && b@.take(5) == pdf_header_magic(),
        r matches Err(e) ==> e is ImageDecode || e is DocumentWrite,
        logo_data is None ==> r is Ok,
        logo_data matches Some(d) ==> (!crate::logo::spec_is_svg(d@) ==> (r is Ok
            <==> raster_decodes(d@))),
{
    let pdf_properties = properties.input_or_default();
    let normal_face = match custom_font_normal {
        Some(s) => s,
        None => pdf_properties.font_normal.as_str(),
    };
    let bold_face = match custom_font_bold {
        Some(s) => s,
        None => pdf_properties.font_bold.as_str(),
    };
    let fonts = load_fonts(translation.language, Some(normal_face), Some(bold_face));
    let logo_ops = match draw_logo(50, 790, logo_data, 80, 24) {
        Ok(v) => v,
        Err(e) => return Err(e),
    };
    let ghost logo_view = ops_view(logo_ops@);
    let ops = layout_invoice(
        order,
        order_items,
        warehouse_address,
        &pdf_properties,
        &translation,
        &fonts,
        logo_ops,
    );
    proof {
        broadcast use lemma_images_decode_concat;

        lemma_invoice_ops_images_ok(
            translation,
            *order,
            order_items@,
            *warehouse_address,
            pdf_properties,
            crate::fonts::spec_nfb(fonts),
            crate::fonts::spec_bfb(fonts),
        );
        if logo_data is None {
            lemma_images_decode_empty();
        } else if !crate::logo::spec_is_svg(logo_data->0@) {
            assert(images_decode(logo_view) <==> raster_decodes(logo_data->0@)) by {
                assert(logo_view[0] matches OpV::Image { data, .. } && data == logo_data->0@);
                if raster_decodes(logo_data->0@) {
                    assert(forall|i: int|
                        0 <= i < logo_view.len() ==> crate::ops::image_op_decodes(
                            #[trigger] logo_view[i],
                        ));
                }
            }
        }
    }
    write_document(&ops, &fonts)
}

} // verus!

//! The packing list layout: a four-column item table (product, SKU,
//! quantity, packed checkbox), a package-information fill-in section, the
//! computed total item count, and a packer-verification signature block.
use vstd::prelude::*;
use vstd::seq_lib::lemma_concat_associative;
use crate::dictionary::Dictionary;
use crate::fonts::{spec_bfb, spec_nfb, FontBundle};
use crate::items::{draw_right_aligned, spec_quantity_total, total_quantity};
use crate::layout::{
    draw_addresses, draw_address, draw_bold_text, draw_horizontal_line, draw_text,
    lemma_address_ops_images_ok, lemma_addresses_ops_images_ok, spec_address_ops,
    spec_addresses_line_y, spec_addresses_ops, spec_text_op,
};
use crate::ops::{
    images_decode, lemma_images_decode_concat, lemma_images_decode_empty, lemma_images_decode_one,
    lemma_ops_view_concat, ops_view, raster_decodes, DrawOp, OpV,
};
use crate::errors::PdfError;
use crate::fonts::load_fonts;
use crate::logo::draw_logo;
use crate::properties::{DocumentProperties, DocumentPropertiesDefault, Rgb};
use crate::writer::{pdf_header_magic, write_document};
use crate::textfmt::{
    format_date, signed_string, spec_date_string, spec_signed_digits, spec_truncate,
    truncate_string,
};
use crate::types::{Address, Order, OrderLineItem};

verus! {

/// The SKU column text: the item's SKU, or the placeholder when none is
/// set.
pub open spec fn spec_sku_text(it: OrderLineItem) -> Seq<char> {
    match it.sku {
        Some(s) => s@,
        None => "N/A"@,
    }
}

/// The four-column table header band at height y: the tinted rectangle and
/// the bold column labels 5 units above its base, at the fixed column
/// offsets 50, 300, 400 and 480.
pub open spec fn spec_packing_table_header(
    y: int,
    product: Seq<char>,
    sku: Seq<char>,
    quantity: Seq<char>,
    packed: Seq<char>,
    background: Rgb,
    size_label: u32,
    bfb: bool,
) -> Seq<OpV> {
    seq![(OpV::Rect { x: 50, y, w: 495, h: 20, color: background })] + seq![
        spec_text_op(50, y + 5, product, size_label, true, bfb),
    ] + seq![spec_text_op(300, y + 5, sku, size_label, true, bfb)] + seq![
        spec_text_op(400, y + 5, quantity, size_label, true, bfb),
    ] + seq![spec_text_op(480, y + 5, packed, size_label, true, bfb)]
}

/// One packing row at height y: truncated title, truncated SKU (or the
/// placeholder), the right-aligned quantity ending at x 435, and the empty
/// packed checkbox at x 480.
pub open spec fn spec_packing_row(y: int, it: OrderLineItem, size_body: u32, nfb: bool) -> Seq<
    OpV,
> {
    let qty = spec_signed_digits(it.quantity as int);
    seq![spec_text_op(50, y, spec_truncate(it.title@, 35), size_body, false, nfb)] + seq![
        spec_text_op(300, y, spec_truncate(spec_sku_text(it), 12), size_body, false, nfb),
    ] + seq![spec_text_op(435 - 6 * (qty.len() as int), y, qty, size_body, false, nfb)] + seq![
        (OpV::Frame { x: 480, y, w: 10, h: 10 }),
    ]
}

/// The packing rows of the whole item list, 20 units apart.
pub open spec fn spec_packing_rows(
    items: Seq<OrderLineItem>,
    y: int,
    size_body: u32,
    nfb: bool,
) -> Seq<OpV>
    decreases items.len(),
{
    if items.len() == 0 {
        Seq::empty()
    } else {
        spec_packing_row(y, items[0], size_body, nfb) + spec_packing_rows(
            items.drop_first(),
            y - 20,
            size_body,
            nfb,
        )
    }
}

fn draw_packing_row(y: i128, it: &OrderLineItem, size_body: u32, fonts: &FontBundle) -> (ops: Vec<
    DrawOp,
>)
    ensures
        ops_view(ops@) == spec_packing_row(y as int, *it, size_body, spec_nfb(*fonts)),
{
    let ghost nfb = spec_nfb(*fonts);
    let title_text = truncate_string(it.title.as_str(), 35);
    let mut local = draw_text(50, y, title_text.as_str(), size_body, fonts);
    let ghost mut acc: Seq<OpV> = ops_view(local@);

    let sku_raw = match &it.sku {
        Some(s) => s.as_str(),
        None => "N/A",
    };
    let sku_text = truncate_string(sku_raw, 12);
    let mut t = draw_text(300, y, sku_text.as_str(), size_body, fonts);
    proof {
        lemma_ops_view_concat(local@, t@);
        acc = acc + ops_view(t@);
    }
    local.append(&mut t);
    proof {
        assert(ops_view(local@) == acc);
    }

    let qty_text = signed_string(it.quantity as i128);
    let mut t = draw_right_aligned(435, y, qty_text.as_str(), size_body, fonts);
    proof {
        lemma_ops_view_concat(local@, t@);
        acc = acc + ops_view(t@);
    }
    local.append(&mut t);
    proof {
        assert(ops_view(local@) == acc);
    }

    let ghost before = local@;
    local.push(DrawOp::Frame { x: 480, y, w: 10, h: 10 });
    proof {
        assert(ops_view(local@) =~= ops_view(before) + seq![
            (OpV::Frame { x: 480, y: y as int, w: 10, h: 10 }),
        ]);
        acc = acc + seq![(OpV::Frame { x: 480, y: y as int, w: 10, h: 10 })];
        assert(ops_view(local@) == acc);
        assert(acc == spec_packing_row(y as int, *it, size_body, nfb));
    }
    local
}

fn draw_packing_rows(
    ops: &mut Vec<DrawOp>,
    items: &Vec<OrderLineItem>,
    start_y: i128,
    size_body: u32,
    fonts: &FontBundle,
) -> (end_y: i128)
    requires
        items@.len() <= 1_000_000_000,
        -1_000_000_000_000 <= start_y <= 1_000_000_000_000,
    ensures
        ops_view(final(ops)@) == ops_view(old(ops)@) + spec_packing_rows(
            items@,
            start_y as int,
            size_body,
            spec_nfb(*fonts),
        ),
        end_y as int == start_y - 20 * items@.len(),
{
    let ghost nfb = spec_nfb(*fonts);
    let ghost full = spec_packing_rows(items@, start_y as int, size_body, nfb);
    let ghost mut done: Seq<OpV> = Seq::empty();
    proof {
        assert(ops_view(ops@) + done =~= ops_view(ops@));
        assert(done + full =~= full);
        assert(items@.skip(0) =~= items@);
    }
    let mut current_y = start_y;
    let mut i: usize = 0;
    while i < items.len()
        invariant
            i <= items@.len(),
            items@.len() <= 1_000_000_000,
            -1_000_000_000_000 <= start_y <= 1_000_000_000_000,
            current_y as int == start_y - 20 * i,
            full == spec_packing_rows(items@, start_y as int, size_body, nfb),
            nfb == spec_nfb(*fonts),
            ops_view(ops@) == ops_view(old(ops)@) + done,
            full == done + spec_packing_rows(items@.skip(i as int), current_y as int, size_body, nfb),
        decreases items@.len() - i,
    {
        let mut row = draw_packing_row(current_y, &items[i], size_body, fonts);
        proof {
            lemma_ops_view_concat(ops@, row@);
        }
        ops.append(&mut row);
        proof {
            let rest = items@.skip(i as int);
            assert(rest[0] == items@[i as int]);
            assert(rest.drop_first() =~= items@.skip(i as int + 1));
            let piece = spec_packing_row(current_y as int, items@[i as int], size_body, nfb);
            lemma_concat_associative(
                done,
                piece,
                spec_packing_rows(items@.skip(i as int + 1), current_y as int - 20, size_body, nfb),
            );
            done = done + piece;
        }
        current_y = current_y - 20;
        i = i + 1;
    }
    proof {
        assert(items@.skip(items@.len() as int) =~= Seq::<OrderLineItem>::empty());
        assert(done + spec_packing_rows(
            Seq::<OrderLineItem>::empty(),
            current_y as int,
            size_body,
            nfb,
        ) =~= done);
    }
    current_y
}

/// The packing header: bold title at the top left, the shipper's address
/// block, the metadata column (prefixed document number, date, shipping
/// method, order status) at x 350, and the closing rule at y 630.
pub open spec fn spec_packing_header(
    d: Dictionary,
    o: Order,
    wh: Address,
    p: DocumentPropertiesDefault,
    nfb: bool,
    bfb: bool,
) -> Seq<OpV> {
    seq![spec_text_op(50, 790, d.packing_list_title@, p.font_size_title, true, bfb)]
        + spec_address_ops(
        50,
        750,
        d.from_label@,
        wh,
        p.font_size_label,
        p.font_size_body,
        d.phone_label@,
        d.vat_label@,
        nfb,
        bfb,
    ) + seq![spec_text_op(350, 770, "PACK-"@ + o.id@, p.font_size_body, false, nfb)] + seq![
        spec_text_op(
            350,
            720,
            d.date_label@ + " "@ + spec_date_string(o.created_at),
            p.font_size_body,
            false,
            nfb,
        ),
    ] + seq![
        spec_text_op(
            350,
            700,
            d.shipping_method_label@ + " "@ + o.shipping_method@,
            p.font_size_body,
            false,
            nfb,
        ),
    ] + seq![
        spec_text_op(
            350,
            680,
            d.order_status_label@ + " "@ + o.status@,
            p.font_size_body,
            false,
            nfb,
        ),
    ] + seq![(OpV::Line { x1: 50, x2: 545, y: 630 })]
}

/// The packing item section: the four-column table, the package
/// information fill-in lines, the computed total item count, and the
/// packer verification block.
pub open spec fn spec_packing_items_section(
    d: Dictionary,
    items: Seq<OrderLineItem>,
    p: DocumentPropertiesDefault,
    start_y: int,
    nfb: bool,
    bfb: bool,
) -> Seq<OpV> {
    let e = start_y - 25 - 20 * items.len();
    spec_packing_table_header(
        start_y,
        d.product_header@,
        d.sku_header@,
        d.quantity_header@,
        d.packed_header@,
        p.background_color,
        p.font_size_label,
        bfb,
    ) + spec_packing_rows(items, start_y - 25, p.font_size_body, nfb) + seq![
        spec_text_op(50, e - 30, d.package_info_title@, p.font_size_label, true, bfb),
    ] + seq![
        spec_text_op(50, e - 50, d.package_weight_label@ + " ___________"@, p.font_size_body, false, nfb),
    ] + seq![
        spec_text_op(
            50,
            e - 68,
            d.package_dimensions_label@ + " L:_____ W:_____ H:_____"@,
            p.font_size_body,
            false,
            nfb,
        ),
    ] + seq![
        spec_text_op(50, e - 86, d.carrier_label@ + " ___________"@, p.font_size_body, false, nfb),
    ] + seq![
        spec_text_op(
            50,
            e - 104,
            d.tracking_number_label@ + " ___________"@,
            p.font_size_body,
            false,
            nfb,
        ),
    ] + seq![
        spec_text_op(
            50,
            e - 142,
            d.total_items_label@ + " "@ + spec_signed_digits(spec_quantity_total(items)),
            p.font_size_label,
            true,
            bfb,
        ),
    ] + seq![
        spec_text_op(50, e - 182, d.packer_verification_title@, p.font_size_label, true, bfb),
    ] + seq![
        spec_text_op(
            50,
            e - 202,
            d.packed_by_label@ + " ___________________ Date: _________ Time: _________"@,
            p.font_size_body,
            false,
            nfb,
        ),
    ] + seq![
        spec_text_op(
            50,
            e - 222,
            d.signature_label@ + " ___________________________________"@,
            p.font_size_body,
            false,
            nfb,
        ),
    ]
}

/// Every operation of a packing list page, in drawing order: header, the
/// ship-to and return-address columns, then the item section 40 units
/// under the address rule.
pub open spec fn spec_packing_ops(
    d: Dictionary,
    o: Order,
    items: Seq<OrderLineItem>,
    wh: Address,
    p: DocumentPropertiesDefault,
    nfb: bool,
    bfb: bool,
) -> Seq<OpV> {
    spec_packing_header(d, o, wh, p, nfb, bfb) + spec_addresses_ops(
        o.shipping_address,
        o.billing_address,
        d.ship_to_label@,
        d.return_address_label@,
        p.font_size_label,
        p.font_size_body,
        d.phone_label@,
        d.vat_label@,
        nfb,
        bfb,
    ) + spec_packing_items_section(
        d,
        items,
        p,
        spec_addresses_line_y(o.shipping_address, o.billing_address) - 40,
        nfb,
        bfb,
    )
}

/// Lays out a complete packing list page: the logo operations given by the
/// caller come first, then every operation of the page in drawing order,
/// pinned exactly by `spec_packing_ops`.
#[verifier::rlimit(80)]
pub fn layout_packing_list(
    order: &Order,
    order_items: &Vec<OrderLineItem>,
    warehouse_address: &Address,
    props: &DocumentPropertiesDefault,
    translation: &Dictionary,
    fonts: &FontBundle,
    logo_ops: Vec<DrawOp>,
) -> (ops: Vec<DrawOp>)
    requires
        order_items@.len() <= 1_000_000_000,
    ensures
        ops_view(ops@) == ops_view(logo_ops@) + spec_packing_ops(
            *translation,
            *order,
            order_items@,
            *warehouse_address,
            *props,
            spec_nfb(*fonts),
            spec_bfb(*fonts),
        ),
{
    let ghost d = *translation;
    let ghost o = *order;
    let ghost p = *props;
    let ghost nfb = spec_nfb(*fonts);
    let ghost bfb = spec_bfb(*fonts);

    let mut ops = logo_ops;
    let ghost base = ops_view(ops@);

    // Header.
    let mut t = draw_bold_text(
        50,
        790,
        translation.packing_list_title.as_str(),
        props.font_size_title,
        fonts,
    );
    proof {
        lemma_ops_view_concat(ops@, t@);
    }
    let ghost mut acc: Seq<OpV> = ops_view(t@);
    ops.append(&mut t);
    proof {
        assert(ops_view(ops@) == base + acc);
    }

    let ghost addr_piece = spec_address_ops(
        50,
        750,
        d.from_label@,
        *warehouse_address,
        p.font_size_label,
        p.font_size_body,
        d.phone_label@,
        d.vat_label@,
        nfb,
        bfb,
    );
    draw_address(props, translation, &mut ops, 50, 750, translation.from_label.as_str(), warehouse_address, fonts);
    proof {
        lemma_concat_associative(base, acc, addr_piece);
        acc = acc + addr_piece;
        assert(ops_view(ops@) == base + acc);
    }

    let mut number_line = "PACK-".to_owned();
    number_line.append(order.id.as_str());
    let mut t = draw_text(350, 770, number_line.as_str(), props.font_size_body, fonts);
    proof {
        lemma_ops_view_concat(ops@, t@);
        lemma_concat_associative(base, acc, ops_view(t@));
        acc = acc + ops_view(t@);
    }
    ops.append(&mut t);
    proof {
        assert(ops_view(ops@) == base + acc);
    }

    let mut date_line = translation.date_label.clone();
    date_line.append(" ");
    let date_text = format_date(order.created_at);
    date_line.append(date_text.as_str());
    let mut t = draw_text(350, 720, date_line.as_str(), props.font_size_body, fonts);
    proof {
        lemma_ops_view_concat(ops@, t@);
        lemma_concat_associative(base, acc, ops_view(t@));
        acc = acc + ops_view(t@);
    }
    ops.append(&mut t);
    proof {
        assert(ops_view(ops@) == base + acc);
    }

    let mut method_line = translation.shipping_method_label.clone();
    method_line.append(" ");
    method_line.append(order.shipping_method.as_str());
    let mut t = draw_text(350, 700, method_line.as_str(), props.font_size_body, fonts);
    proof {
        lemma_ops_view_concat(ops@, t@);
        lemma_concat_associative(base, acc, ops_view(t@));
        acc = acc + ops_view(t@);
    }
    ops.append(&mut t);
    proof {
        assert(ops_view(ops@) == base + acc);
    }

    let mut status_line = translation.order_status_label.clone();
    status_line.append(" ");
    status_line.append(order.status.as_str());
    let mut t = draw_text(350, 680, status_line.as_str(), props.font_size_body, fonts);
    proof {
        lemma_ops_view_concat(ops@, t@);
        lemma_concat_associative(base, acc, ops_view(t@));
        acc = acc + ops_view(t@);
    }
    ops.append(&mut t);
    proof {
        assert(ops_view(ops@) == base + acc);
    }

    let ghost before_rule = ops@;
    ops.push(draw_horizontal_line(630));
    proof {
        assert(ops_view(ops@) =~= ops_view(before_rule) + seq![(OpV::Line { x1: 50, x2: 545, y: 630 })]);
        lemma_concat_associative(base, acc, seq![(OpV::Line { x1: 50, x2: 545, y: 630 })]);
        acc = acc + seq![(OpV::Line { x1: 50, x2: 545, y: 630 })];
        assert(ops_view(ops@) == base + acc);
        assert(acc == spec_packing_header(d, o, *warehouse_address, p, nfb, bfb));
    }

    // Ship-to and return-address columns.
    let (mut addr_ops, line_y) = draw_addresses(
        props,
        translation,
        &order.shipping_address,
        &order.billing_address,
        translation.ship_to_label.as_str(),
        translation.return_address_label.as_str(),
        fonts,
    );
    proof {
        lemma_ops_view_concat(ops@, addr_ops@);
        lemma_concat_associative(base, acc, ops_view(addr_ops@));
        acc = acc + ops_view(addr_ops@);
    }
    ops.append(&mut addr_ops);
    proof {
        assert(ops_view(ops@) == base + acc);
    }

    // Item table, package information and verification block.
    let items_y = line_y - 40;
    let mut sec = draw_packing_items_at(order_items, translation, props, items_y, fonts);
    proof {
        lemma_ops_view_concat(ops@, sec@);
        lemma_concat_associative(base, acc, ops_view(sec@));
        acc = acc + ops_view(sec@);
    }
    ops.append(&mut sec);
    proof {
        assert(ops_view(ops@) == base + acc);
        assert(acc == spec_packing_ops(d, o, order_items@, *warehouse_address, p, nfb, bfb));
    }
    ops
}

/// Draws the packing item section at `start_y`.
#[verifier::rlimit(80)]
fn draw_packing_items_at(
    order_items: &Vec<OrderLineItem>,
    translation: &Dictionary,
    props: &DocumentPropertiesDefault,
    start_y: i128,
    fonts: &FontBundle,
) -> (ops: Vec<DrawOp>)
    requires
        order_items@.len() <= 1_000_000_000,
        -1_000_000_000 <= start_y <= 1_000_000_000,
    ensures
        ops_view(ops@) == spec_packing_items_section(
            *translation,
            order_items@,
            *props,
            start_y as int,
            spec_nfb(*fonts),
            spec_bfb(*fonts),
        ),
{
    let ghost d = *translation;
    let ghost p = *props;
    let ghost nfb = spec_nfb(*fonts);
    let ghost bfb = spec_bfb(*fonts);

    // Table header band and labels.
    let mut ops: Vec<DrawOp> = Vec::new();
    ops.push(DrawOp::Rect { x: 50, y: start_y, w: 495, h: 20, color: props.background_color });
    let ghost mut acc: Seq<OpV> = ops_view(ops@);
    proof {
        assert(acc =~= seq![
            (OpV::Rect { x: 50, y: start_y as int, w: 495, h: 20, color: p.background_color }),
        ]);
    }
    let mut t = draw_bold_text(50, start_y + 5, translation.product_header.as_str(), props.font_size_label, fonts);
    proof {
        lemma_ops_view_concat(ops@, t@);
        acc = acc + ops_view(t@);
    }
    ops.append(&mut t);
    proof {
        assert(ops_view(ops@) == acc);
    }
    let mut t = draw_bold_text(300, start_y + 5, translation.sku_header.as_str(), props.font_size_label, fonts);
    proof {
        lemma_ops_view_concat(ops@, t@);
        acc = acc + ops_view(t@);
    }
    ops.append(&mut t);
    proof {
        assert(ops_view(ops@) == acc);
    }
    let mut t = draw_bold_text(400, start_y + 5, translation.quantity_header.as_str(), props.font_size_label, fonts);
    proof {
        lemma_ops_view_concat(ops@, t@);
        acc = acc + ops_view(t@);
    }
    ops.append(&mut t);
    proof {
        assert(ops_view(ops@) == acc);
    }
    let mut t = draw_bold_text(480, start_y + 5, translation.packed_header.as_str(), props.font_size_label, fonts);
    proof {
        lemma_ops_view_concat(ops@, t@);
        acc = acc + ops_view(t@);
    }
    ops.append(&mut t);
    proof {
        assert(ops_view(ops@) == acc);
        assert(acc == spec_packing_table_header(
            start_y as int,
            d.product_header@,
            d.sku_header@,
            d.quantity_header@,
            d.packed_header@,
            p.background_color,
            p.font_size_label,
            bfb,
        ));
    }

    // Rows.
    let ghost rows_piece = spec_packing_rows(
        order_items@,
        start_y as int - 25,
        p.font_size_body,
        nfb,
    );
    let rows_end = draw_packing_rows(&mut ops, order_items, start_y - 25, props.font_size_body, fonts);
    proof {
        acc = acc + rows_piece;
        assert(ops_view(ops@) == acc);
    }

    // Package information fill-in section.
    let mut current_y = rows_end - 30;
    let mut t = draw_bold_text(50, current_y, translation.package_info_title.as_str(), props.font_size_label, fonts);
    proof {
        lemma_ops_view_concat(ops@, t@);
        lemma_concat_associative(
            spec_packing_table_header(
                start_y as int,
                d.product_header@,
                d.sku_header@,
                d.quantity_header@,
                d.packed_header@,
                p.background_color,
                p.font_size_label,
                bfb,
            ),
            rows_piece,
            ops_view(t@),
        );
        acc = acc + ops_view(t@);
    }
    ops.append(&mut t);
    proof {
        assert(ops_view(ops@) == acc);
    }
    current_y = current_y - 20;

    let mut weight_line = translation.package_weight_label.clone();
    weight_line.append(" ___________");
    let mut t = draw_text(50, current_y, weight_line.as_str(), props.font_size_body, fonts);
    proof {
        lemma_ops_view_concat(ops@, t@);
        acc = acc + ops_view(t@);
    }
    ops.append(&mut t);
    proof {
        assert(ops_view(ops@) == acc);
    }
    current_y = current_y - 18;

    let mut dims_line = translation.package_dimensions_label.clone();
    dims_line.append(" L:_____ W:_____ H:_____");
    let mut t = draw_text(50, current_y, dims_line.as_str(), props.font_size_body, fonts);
    proof {
        lemma_ops_view_concat(ops@, t@);
        acc = acc + ops_view(t@);
    }
    ops.append(&mut t);
    proof {
        assert(ops_view(ops@) == acc);
    }
    current_y = current_y - 18;

    let mut carrier_line = translation.carrier_label.clone();
    carrier_line.append(" ___________");
    let mut t = draw_text(50, current_y, carrier_line.as_str(), props.font_size_body, fonts);
    proof {
        lemma_ops_view_concat(ops@, t@);
        acc = acc + ops_view(t@);
    }
    ops.append(&mut t);
    proof {
        assert(ops_view(ops@) == acc);
    }
    current_y = current_y - 18;

    let mut tracking_line = translation.tracking_number_label.clone();
    tracking_line.append(" ___________");
    let mut t = draw_text(50, current_y, tracking_line.as_str(), props.font_size_body, fonts);
    proof {
        lemma_ops_view_concat(ops@, t@);
        acc = acc + ops_view(t@);
    }
    ops.append(&mut t);
    proof {
        assert(ops_view(ops@) == acc);
    }
    current_y = current_y - 18;

    // Total item count.
    current_y = current_y - 20;
    let total_items = total_quantity(order_items);
    let total_text = signed_string(total_items);
    let mut total_line = translation.total_items_label.clone();
    total_line.append(" ");
    total_line.append(total_text.as_str());
    let mut t = draw_bold_text(50, current_y, total_line.as_str(), props.font_size_label, fonts);
    proof {
        lemma_ops_view_concat(ops@, t@);
        acc = acc + ops_view(t@);
    }
    ops.append(&mut t);
    proof {
        assert(ops_view(ops@) == acc);
    }

    // Packer verification block.
    current_y = current_y - 40;
    let mut t = draw_bold_text(50, current_y, translation.packer_verification_title.as_str(), props.font_size_label, fonts);
    proof {
        lemma_ops_view_concat(ops@, t@);
        acc = acc + ops_view(t@);
    }
    ops.append(&mut t);
    proof {
        assert(ops_view(ops@) == acc);
    }
    current_y = current_y - 20;

    let mut packed_line = translation.packed_by_label.clone();
    packed_line.append(" ___________________ Date: _________ Time: _________");
    let mut t = draw_text(50, current_y, packed_line.as_str(), props.font_size_body, fonts);
    proof {
        lemma_ops_view_concat(ops@, t@);
        acc = acc + ops_view(t@);
    }
    ops.append(&mut t);
    proof {
        assert(ops_view(ops@) == acc);
    }
    current_y = current_y - 20;

    let mut signature_line = translation.signature_label.clone();
    signature_line.append(" ___________________________________");
    let mut t = draw_text(50, current_y, signature_line.as_str(), props.font_size_body, fonts);
    proof {
        lemma_ops_view_concat(ops@, t@);
        acc = acc + ops_view(t@);
    }
    ops.append(&mut t);
    proof {
        assert(ops_view(ops@) == acc);
        assert(acc == spec_packing_items_section(d, order_items@, p, start_y as int, nfb, bfb));
    }
    ops
}

proof fn lemma_packing_row_images_ok(y: int, it: OrderLineItem, size_body: u32, nfb: bool)
    ensures
        images_decode(spec_packing_row(y, it, size_body, nfb)),
{
    broadcast use lemma_images_decode_concat;

    let qty = spec_signed_digits(it.quantity as int);
    lemma_images_decode_one(
        spec_text_op(50, y, spec_truncate(it.title@, 35), size_body, false, nfb),
    );
    lemma_images_decode_one(
        spec_text_op(300, y, spec_truncate(spec_sku_text(it), 12), size_body, false, nfb),
    );
    lemma_images_decode_one(
        spec_text_op(435 - 6 * (qty.len() as int), y, qty, size_body, false, nfb),
    );
    lemma_images_decode_one((OpV::Frame { x: 480, y, w: 10, h: 10 }));
}

proof fn lemma_packing_rows_images_ok(
    items: Seq<OrderLineItem>,
    y: int,
    size_body: u32,
    nfb: bool,
)
    ensures
        images_decode(spec_packing_rows(items, y, size_body, nfb)),
    decreases items.len(),
{
    broadcast use lemma_images_decode_concat;

    if items.len() == 0 {
        lemma_images_decode_empty();
    } else {
        lemma_packing_row_images_ok(y, items[0], size_body, nfb);
        lemma_packing_rows_images_ok(items.drop_first(), y - 20, size_body, nfb);
    }
}

proof fn lemma_packing_header_images_ok(
    d: Dictionary,
    o: Order,
    wh: Address,
    p: DocumentPropertiesDefault,
    nfb: bool,
    bfb: bool,
)
    ensures
        images_decode(spec_packing_header(d, o, wh, p, nfb, bfb)),
{
    broadcast use lemma_images_decode_concat;

    lemma_images_decode_one(
        spec_text_op(50, 790, d.packing_list_title@, p.font_size_title, true, bfb),
    );
    lemma_address_ops_images_ok(
        50,
        750,
        d.from_label@,
        wh,
        p.font_size_label,
        p.font_size_body,
        d.phone_label@,
        d.vat_label@,
        nfb,
        bfb,
    );
    lemma_images_decode_one(spec_text_op(350, 770, "PACK-"@ + o.id@, p.font_size_body, false, nfb));
    lemma_images_decode_one(
        spec_text_op(
            350,
            720,
            d.date_label@ + " "@ + spec_date_string(o.created_at),
            p.font_size_body,
            false,
            nfb,
        ),
    );
    lemma_images_decode_one(
        spec_text_op(
            350,
            700,
            d.shipping_method_label@ + " "@ + o.shipping_method@,
            p.font_size_body,
            false,
            nfb,
        ),
    );
    lemma_images_decode_one(
        spec_text_op(
            350,
            680,
            d.order_status_label@ + " "@ + o.status@,
            p.font_size_body,
            false,
            nfb,
        ),
    );
    lemma_images_decode_one((OpV::Line { x1: 50, x2: 545, y: 630 }));
}

proof fn lemma_packing_items_section_images_ok(
    d: Dictionary,
    items: Seq<OrderLineItem>,
    p: DocumentPropertiesDefault,
    start_y: int,
    nfb: bool,
    bfb: bool,
)
    ensures
        images_decode(spec_packing_items_section(d, items, p, start_y, nfb, bfb)),
{
    broadcast use lemma_images_decode_concat;

    let e = start_y - 25 - 20 * items.len();
    lemma_images_decode_one(
        (OpV::Rect { x: 50, y: start_y, w: 495, h: 20, color: p.background_color }),
    );
    lemma_images_decode_one(spec_text_op(50, start_y + 5, d.product_header@, p.font_size_label, true, bfb));
    lemma_images_decode_one(spec_text_op(300, start_y + 5, d.sku_header@, p.font_size_label, true, bfb));
    lemma_images_decode_one(
        spec_text_op(400, start_y + 5, d.quantity_header@, p.font_size_label, true, bfb),
    );
    lemma_images_decode_one(
        spec_text_op(480, start_y + 5, d.packed_header@, p.font_size_label, true, bfb),
    );
    lemma_packing_rows_images_ok(items, start_y - 25, p.font_size_body, nfb);
    lemma_images_decode_one(
        spec_text_op(50, e - 30, d.package_info_title@, p.font_size_label, true, bfb),
    );
    lemma_images_decode_one(
        spec_text_op(
            50,
            e - 50,
            d.package_weight_label@ + " ___________"@,
            p.font_size_body,
            false,
            nfb,
        ),
    );
    lemma_images_decode_one(
        spec_text_op(
            50,
            e - 68,
            d.package_dimensions_label@ + " L:_____ W:_____ H:_____"@,
            p.font_size_body,
            false,
            nfb,
        ),
    );
    lemma_images_decode_one(
        spec_text_op(50, e - 86, d.carrier_label@ + " ___________"@, p.font_size_body, false, nfb),
    );
    lemma_images_decode_one(
        spec_text_op(
            50,
            e - 104,
            d.tracking_number_label@ + " ___________"@,
            p.font_size_body,
            false,
            nfb,
        ),
    );
    lemma_images_decode_one(
        spec_text_op(
            50,
            e - 142,
            d.total_items_label@ + " "@ + spec_signed_digits(spec_quantity_total(items)),
            p.font_size_label,
            true,
            bfb,
        ),
    );
    lemma_images_decode_one(
        spec_text_op(50, e - 182, d.packer_verification_title@, p.font_size_label, true, bfb),
    );
    lemma_images_decode_one(
        spec_text_op(
            50,
            e - 202,
            d.packed_by_label@ + " ___________________ Date: _________ Time: _________"@,
            p.font_size_body,
            false,
            nfb,
        ),
    );
    lemma_images_decode_one(
        spec_text_op(
            50,
            e - 222,
            d.signature_label@ + " ___________________________________"@,
            p.font_size_body,
            false,
            nfb,
        ),
    );
}

/// A packing list page draws text, rules, bands and checkboxes only: every
/// operation of `spec_packing_ops` serializes.
pub proof fn lemma_packing_ops_images_ok(
    d: Dictionary,
    o: Order,
    items: Seq<OrderLineItem>,
    wh: Address,
    p: DocumentPropertiesDefault,
    nfb: bool,
    bfb: bool,
)
    ensures
        images_decode(spec_packing_ops(d, o, items, wh, p, nfb, bfb)),
{
    broadcast use lemma_images_decode_concat;

    lemma_packing_header_images_ok(d, o, wh, p, nfb, bfb);
    lemma_addresses_ops_images_ok(
        o.shipping_address,
        o.billing_address,
        d.ship_to_label@,
        d.return_address_label@,
        p.font_size_label,
        p.font_size_body,
        d.phone_label@,
        d.vat_label@,
        nfb,
        bfb,
    );
    lemma_packing_items_section_images_ok(
        d,
        items,
        p,
        spec_addresses_line_y(o.shipping_address, o.billing_address) - 40,
        nfb,
        bfb,
    );
}

/// Generates a complete packing list as PDF bytes: resolves the
/// properties, loads the fonts for the dictionary's language, embeds the
/// optional logo at the top right, lays the page out and serializes it.
/// Without a logo it always succeeds; with a raster logo it succeeds
/// exactly when the bytes decode; only an SVG logo, whose rasterization is
/// the outside renderer's, leaves success open.  On success the bytes
/// begin with the PDF signature; generation is all-or-nothing.
pub fn generate_pdf_packing_list(
    order: &Order,
    order_items: &Vec<OrderLineItem>,
    warehouse_address: &Address,
    properties: DocumentProperties,
    translation: Dictionary,
    logo_data: Option<&[u8]>,
) -> (r: Result<Vec<u8>, PdfError>)
    requires
        order_items@.len() <= 1_000_000_000,
    ensures
        r matches Ok(b) ==> b@.len() >= 5 && b@.take(5) == pdf_header_magic(),
        r matches Err(e) ==> e is ImageDecode || e is DocumentWrite,
        logo_data is None ==> r is Ok,
        logo_data matches Some(d) ==> (!crate::logo::spec_is_svg(d@) ==> (r is Ok
            <==> raster_decodes(d@))),
{
    let pdf_properties = properties.input_or_default();
    let fonts = load_fonts(
        translation.language,
        Some(pdf_properties.font_normal.as_str()),
        Some(pdf_properties.font_bold.as_str()),
    );
    let logo_ops = match draw_logo(460, 780, logo_data, 80, 24) {
        Ok(v) => v,
        Err(e) => return Err(e),
    };
    let ghost logo_view = ops_view(logo_ops@);
    let ops = layout_packing_list(
        order,
        order_items,
        warehouse_address,
        &pdf_properties,
        &translation,
        &fonts,
        logo_ops,
    );
    proof {
        broadcast use lemma_images_decode_concat;

        lemma_packing_ops_images_ok(
            translation,
            *order,
            order_items@,
            *warehouse_address,
            pdf_properties,
            crate::fonts::spec_nfb(fonts),
            crate::fonts::spec_bfb(fonts),
        );
        if logo_data is None {
            lemma_images_decode_empty();
        } else if !crate::logo::spec_is_svg(logo_data->0@) {
            assert(images_decode(logo_view) <==> raster_decodes(logo_data->0@)) by {
                assert(logo_view[0] matches OpV::Image { data, .. } && data == logo_data->0@);
                if raster_decodes(logo_data->0@) {
                    assert(forall|i: int|
                        0 <= i < logo_view.len() ==> crate::ops::image_op_decodes(
                            #[trigger] logo_view[i],
                        ));
                }
            }
        }
    }
    write_document(&ops, &fonts)
}

} // verus!

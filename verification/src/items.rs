//! The line-item table shared by invoices and proforma invoices: one row
//! per item with right-aligned numeric columns, followed by the shaded
//! totals block.  Right alignment offsets each numeric string backward by
//! six units per character, an approximation that ignores proportional
//! font metrics.
use vstd::prelude::*;
use vstd::seq_lib::lemma_concat_associative;
use crate::dictionary::Dictionary;
use crate::fonts::{spec_bfb, spec_nfb, FontBundle};
use crate::layout::{draw_bold_text, draw_text, opt_present, spec_text_op};
use crate::ops::{
    images_decode, lemma_images_decode_concat, lemma_images_decode_empty, lemma_images_decode_one,
    lemma_ops_view_concat, ops_view, DrawOp, OpV,
};
use crate::properties::Rgb;
use crate::textfmt::{
    format_decimal, signed_string, spec_money_string, spec_signed_digits, spec_truncate,
    truncate_string,
};
use crate::types::{Money, Order, OrderLineItem};

verus! {

/// The product description of a row: the title, with the SKU appended in
/// brackets when one is present and non-empty.
pub open spec fn spec_item_desc(it: OrderLineItem) -> Seq<char> {
    if opt_present(it.sku) {
        it.title@ + " ["@ + it.sku->0@ + "]"@
    } else {
        it.title@
    }
}

fn item_desc(it: &OrderLineItem) -> (r: String)
    ensures
        r@ == spec_item_desc(*it),
{
    match &it.sku {
        Some(sku) => {
            if !sku.as_str().is_empty() {
                let mut d = it.title.clone();
                d.append(" [");
                d.append(sku.as_str());
                d.append("]");
                d
            } else {
                it.title.clone()
            }
        },
        None => it.title.clone(),
    }
}

/// Draws `text` so that it ends six units per character before `right_x`,
/// the approximation used to right-align numeric columns.
pub fn draw_right_aligned(right_x: i128, y: i128, text: &str, size: u32, fonts: &FontBundle) -> (
    ops: Vec<DrawOp>)
    requires
        -1_000_000_000_000_000 <= right_x <= 1_000_000_000_000_000,
    ensures
        ops_view(ops@) == seq![
            spec_text_op(
                right_x as int - 6 * (text@.len() as int),
                y as int,
                text@,
                size,
                false,
                spec_nfb(*fonts),
            ),
        ],
{
    let n = text.unicode_len();
    let tx = right_x - 6 * (n as i128);
    draw_text(tx, y, text, size, fonts)
}

/// One table row of an invoice-style item table at height y: the truncated
/// description at x 50 and five right-aligned numeric columns (quantity,
/// unit price, discount, tax, total) ending at x 265, 325, 395, 465, 535.
pub open spec fn spec_invoice_row(
    y: int,
    it: OrderLineItem,
    currency: Seq<char>,
    size_body: u32,
    nfb: bool,
) -> Seq<OpV> {
    let desc = spec_truncate(spec_item_desc(it), 25);
    let qty = spec_signed_digits(it.quantity as int);
    let unit = spec_money_string(it.unit_price.cents as int, currency);
    let disc = spec_money_string(it.discount_total.cents as int, currency);
    let tax = spec_money_string(it.tax_total.cents as int, currency);
    let tot = spec_money_string(it.total.cents as int, currency);
    seq![spec_text_op(50, y, desc, size_body, false, nfb)] + seq![
        spec_text_op(265 - 6 * (qty.len() as int), y, qty, size_body, false, nfb),
    ] + seq![spec_text_op(325 - 6 * (unit.len() as int), y, unit, size_body, false, nfb)] + seq![
        spec_text_op(395 - 6 * (disc.len() as int), y, disc, size_body, false, nfb),
    ] + seq![spec_text_op(465 - 6 * (tax.len() as int), y, tax, size_body, false, nfb)] + seq![
        spec_text_op(535 - 6 * (tot.len() as int), y, tot, size_body, false, nfb),
    ]
}

/// Draws one item row.
pub fn draw_invoice_row(
    y: i128,
    it: &OrderLineItem,
    currency: &str,
    size_body: u32,
    fonts: &FontBundle,
) -> (ops: Vec<DrawOp>)
    ensures
        ops_view(ops@) == spec_invoice_row(y as int, *it, currency@, size_body, spec_nfb(*fonts)),
{
    let ghost nfb = spec_nfb(*fonts);
    let desc_full = item_desc(it);
    let desc = truncate_string(desc_full.as_str(), 25);
    let mut local = draw_text(50, y, desc.as_str(), size_body, fonts);
    let ghost mut acc: Seq<OpV> = ops_view(local@);

    let qty_text = signed_string(it.quantity as i128);
    let mut t = draw_right_aligned(265, y, qty_text.as_str(), size_body, fonts);
    proof {
        lemma_ops_view_concat(local@, t@);
        acc = acc + ops_view(t@);
    }
    local.append(&mut t);
    proof {
        assert(ops_view(local@) == acc);
    }

    let unit_text = format_decimal(it.unit_price, currency);
    let mut t = draw_right_aligned(325, y, unit_text.as_str(), size_body, fonts);
    proof {
        lemma_ops_view_concat(local@, t@);
        acc = acc + ops_view(t@);
    }
    local.append(&mut t);
    proof {
        assert(ops_view(local@) == acc);
    }

    let disc_text = format_decimal(it.discount_total, currency);
    let mut t = draw_right_aligned(395, y, disc_text.as_str(), size_body, fonts);
    proof {
        lemma_ops_view_concat(local@, t@);
        acc = acc + ops_view(t@);
    }
    local.append(&mut t);
    proof {
        assert(ops_view(local@) == acc);
    }

    let tax_text = format_decimal(it.tax_total, currency);
    let mut t = draw_right_aligned(465, y, tax_text.as_str(), size_body, fonts);
    proof {
        lemma_ops_view_concat(local@, t@);
        acc = acc + ops_view(t@);
    }
    local.append(&mut t);
    proof {
        assert(ops_view(local@) == acc);
    }

    let tot_text = format_decimal(it.total, currency);
    let mut t = draw_right_aligned(535, y, tot_text.as_str(), size_body, fonts);
    proof {
        lemma_ops_view_concat(local@, t@);
        acc = acc + ops_view(t@);
    }
    local.append(&mut t);
    proof {
        assert(ops_view(local@) == acc);
        assert(acc == spec_invoice_row(y as int, *it, currency@, size_body, nfb));
    }
    local
}

/// The rows of the whole item list, one under the other, 20 units apart.
pub open spec fn spec_invoice_rows(
    items: Seq<OrderLineItem>,
    y: int,
    currency: Seq<char>,
    size_body: u32,
    nfb: bool,
) -> Seq<OpV>
    decreases items.len(),
{
    if items.len() == 0 {
        Seq::empty()
    } else {
        spec_invoice_row(y, items[0], currency, size_body, nfb) + spec_invoice_rows(
            items.drop_first(),
            y - 20,
            currency,
            size_body,
            nfb,
        )
    }
}

/// Draws one row per line item, walking the cursor down 20 units per row,
/// and returns the cursor under the last row.
pub fn draw_invoice_rows(
    ops: &mut Vec<DrawOp>,
    items: &Vec<OrderLineItem>,
    start_y: i128,
    currency: &str,
    size_body: u32,
    fonts: &FontBundle,
) -> (end_y: i128)
    requires
        items@.len() <= 1_000_000_000,
        -1_000_000_000_000 <= start_y <= 1_000_000_000_000,
    ensures
        ops_view(final(ops)@) == ops_view(old(ops)@) + spec_invoice_rows(
            items@,
            start_y as int,
            currency@,
            size_body,
            spec_nfb(*fonts),
        ),
        end_y as int == start_y - 20 * items@.len(),
{
    let ghost nfb = spec_nfb(*fonts);
    let ghost full = spec_invoice_rows(items@, start_y as int, currency@, size_body, nfb);
    let ghost mut done: Seq<OpV> = Seq::empty();
    proof {
        assert(ops_view(ops@) + done =~= ops_view(ops@));
        assert(done + full =~= full);
        assert(items@.skip(0) =~= items@);
    }
    let mut current_y = start_y;
    let mut i: usize = 0;
    while i < items.len()
        invariant
            i <= items@.len(),
            items@.len() <= 1_000_000_000,
            -1_000_000_000_000 <= start_y <= 1_000_000_000_000,
            current_y as int == start_y - 20 * i,
            full == spec_invoice_rows(items@, start_y as int, currency@, size_body, nfb),
            nfb == spec_nfb(*fonts),
            ops_view(ops@) == ops_view(old(ops)@) + done,
            full == done + spec_invoice_rows(
                items@.skip(i as int),
                current_y as int,
                currency@,
                size_body,
                nfb,
            ),
        decreases items@.len() - i,
    {
        let mut row = draw_invoice_row(current_y, &items[i], currency, size_body, fonts);
        proof {
            lemma_ops_view_concat(ops@, row@);
        }
        ops.append(&mut row);
        proof {
            let rest = items@.skip(i as int);
            assert(rest[0] == items@[i as int]);
            assert(rest.drop_first() =~= items@.skip(i as int + 1));
            let piece = spec_invoice_row(current_y as int, items@[i as int], currency@, size_body, nfb);
            lemma_concat_associative(
                done,
                piece,
                spec_invoice_rows(
                    items@.skip(i as int + 1),
                    current_y as int - 20,
                    currency@,
                    size_body,
                    nfb,
                ),
            );
            done = done + piece;
        }
        current_y = current_y - 20;
        i = i + 1;
    }
    proof {
        assert(items@.skip(items@.len() as int) =~= Seq::<OrderLineItem>::empty());
        assert(done + spec_invoice_rows(
            Seq::<OrderLineItem>::empty(),
            current_y as int,
            currency@,
            size_body,
            nfb,
        ) =~= done);
    }
    current_y
}

/// One shaded totals row at height y: a light (0.95 per channel) filled
/// band from x 350, the bold label at x 355, and the right-aligned amount
/// ending at x 535, both 2 units above the band's base.
pub open spec fn spec_total_row(
    y: int,
    label: Seq<char>,
    cents: int,
    currency: Seq<char>,
    size_body: u32,
    nfb: bool,
    bfb: bool,
) -> Seq<OpV> {
    let money = spec_money_string(cents, currency);
    seq![(OpV::Rect { x: 350, y, w: 215, h: 15, color: Rgb { r: 95, g: 95, b: 95 } })] + seq![
        spec_text_op(355, y + 2, label, size_body, true, bfb),
    ] + seq![
        spec_text_op(535 - 6 * (money.len() as int), y + 2, money, size_body, false, nfb),
    ]
}

/// Draws one shaded totals row.
pub fn draw_total_row(
    y: i128,
    label: &str,
    amount: Money,
    currency: &str,
    size_body: u32,
    fonts: &FontBundle,
) -> (ops: Vec<DrawOp>)
    requires
        -2_000_000_000_000 <= y <= 2_000_000_000_000,
    ensures
        ops_view(ops@) == spec_total_row(
            y as int,
            label@,
            amount.cents as int,
            currency@,
            size_body,
            spec_nfb(*fonts),
            spec_bfb(*fonts),
        ),
{
    let mut local: Vec<DrawOp> = Vec::new();
    local.push(DrawOp::Rect { x: 350, y, w: 215, h: 15, color: Rgb { r: 95, g: 95, b: 95 } });
    let ghost mut acc: Seq<OpV> = ops_view(local@);
    proof {
        assert(acc =~= seq![
            (OpV::Rect { x: 350, y: y as int, w: 215, h: 15, color: Rgb { r: 95, g: 95, b: 95 } }),
        ]);
    }
    let mut t = draw_bold_text(355, y + 2, label, size_body, fonts);
    proof {
        lemma_ops_view_concat(local@, t@);
        acc = acc + ops_view(t@);
    }
    local.append(&mut t);
    proof {
        assert(ops_view(local@) == acc);
    }
    let money = format_decimal(amount, currency);
    let mut t = draw_right_aligned(535, y + 2, money.as_str(), size_body, fonts);
    proof {
        lemma_ops_view_concat(local@, t@);
        acc = acc + ops_view(t@);
    }
    local.append(&mut t);
    proof {
        assert(ops_view(local@) == acc);
        assert(acc == spec_total_row(
            y as int,
            label@,
            amount.cents as int,
            currency@,
            size_body,
            spec_nfb(*fonts),
            spec_bfb(*fonts),
        ));
    }
    local
}

/// The totals block: six shaded rows in fixed order — subtotal before
/// discount, discount, subtotal, shipping, tax, then the closing total
/// under the given label — each 20 units under the one before, the first
/// 20 units under y.
pub open spec fn spec_totals_block(
    y: int,
    o: Order,
    d: Dictionary,
    total_label: Seq<char>,
    size_body: u32,
    nfb: bool,
    bfb: bool,
) -> Seq<OpV> {
    spec_total_row(
        y - 20,
        d.subtotal_before_discount_label@,
        o.subtotal_before_discount.cents as int,
        o.currency@,
        size_body,
        nfb,
        bfb,
    ) + spec_total_row(
        y - 40,
        d.discount_label@,
        o.discount_total.cents as int,
        o.currency@,
        size_body,
        nfb,
        bfb,
    ) + spec_total_row(
        y - 60,
        d.subtotal_label@,
        o.subtotal.cents as int,
        o.currency@,
        size_body,
        nfb,
        bfb,
    ) + spec_total_row(
        y - 80,
        d.shipping_label@,
        o.shipping_total.cents as int,
        o.currency@,
        size_body,
        nfb,
        bfb,
    ) + spec_total_row(
        y - 100,
        d.tax_label@,
        o.tax_total.cents as int,
        o.currency@,
        size_body,
        nfb,
        bfb,
    ) + spec_total_row(y - 120, total_label, o.total.cents as int, o.currency@, size_body, nfb, bfb)
}

/// Draws the totals block and returns the cursor at the last row.
pub fn draw_totals_block(
    ops: &mut Vec<DrawOp>,
    y: i128,
    translation: &Dictionary,
    total_label: &str,
    order: &Order,
    size_body: u32,
    fonts: &FontBundle,
) -> (end_y: i128)
    requires
        -1_000_000_000_000 <= y <= 1_000_000_000_000,
    ensures
        ops_view(final(ops)@) == ops_view(old(ops)@) + spec_totals_block(
            y as int,
            *order,
            *translation,
            total_label@,
            size_body,
            spec_nfb(*fonts),
            spec_bfb(*fonts),
        ),
        end_y as int == y - 120,
{
    let ghost nfb = spec_nfb(*fonts);
    let ghost bfb = spec_bfb(*fonts);
    let mut t = draw_total_row(
        y - 20,
        translation.subtotal_before_discount_label.as_str(),
        order.subtotal_before_discount,
        order.currency.as_str(),
        size_body,
        fonts,
    );
    let ghost mut acc: Seq<OpV> = ops_view(t@);
    proof {
        lemma_ops_view_concat(ops@, t@);
    }
    ops.append(&mut t);

    let mut t = draw_total_row(
        y - 40,
        translation.discount_label.as_str(),
        order.discount_total,
        order.currency.as_str(),
        size_body,
        fonts,
    );
    proof {
        lemma_ops_view_concat(ops@, t@);
        lemma_concat_associative(ops_view(old(ops)@), acc, ops_view(t@));
        acc = acc + ops_view(t@);
    }
    ops.append(&mut t);
    proof {
        assert(ops_view(ops@) == ops_view(old(ops)@) + acc);
    }

    let mut t = draw_total_row(
        y - 60,
        translation.subtotal_label.as_str(),
        order.subtotal,
        order.currency.as_str(),
        size_body,
        fonts,
    );
    proof {
        lemma_ops_view_concat(ops@, t@);
        lemma_concat_associative(ops_view(old(ops)@), acc, ops_view(t@));
        acc = acc + ops_view(t@);
    }
    ops.append(&mut t);
    proof {
        assert(ops_view(ops@) == ops_view(old(ops)@) + acc);
    }

    let mut t = draw_total_row(
        y - 80,
        translation.shipping_label.as_str(),
        order.shipping_total,
        order.currency.as_str(),
        size_body,
        fonts,
    );
    proof {
        lemma_ops_view_concat(ops@, t@);
        lemma_concat_associative(ops_view(old(ops)@), acc, ops_view(t@));
        acc = acc + ops_view(t@);
    }
    ops.append(&mut t);
    proof {
        assert(ops_view(ops@) == ops_view(old(ops)@) + acc);
    }

    let mut t = draw_total_row(
        y - 100,
        translation.tax_label.as_str(),
        order.tax_total,
        order.currency.as_str(),
        size_body,
        fonts,
    );
    proof {
        lemma_ops_view_concat(ops@, t@);
        lemma_concat_associative(ops_view(old(ops)@), acc, ops_view(t@));
        acc = acc + ops_view(t@);
    }
    ops.append(&mut t);
    proof {
        assert(ops_view(ops@) == ops_view(old(ops)@) + acc);
    }

    let mut t = draw_total_row(
        y - 120,
        total_label,
        order.total,
        order.currency.as_str(),
        size_body,
        fonts,
    );
    proof {
        lemma_ops_view_concat(ops@, t@);
        lemma_concat_associative(ops_view(old(ops)@), acc, ops_view(t@));
        acc = acc + ops_view(t@);
    }
    ops.append(&mut t);
    proof {
        assert(ops_view(ops@) == ops_view(old(ops)@) + acc);
        assert(acc == spec_totals_block(
            y as int,
            *order,
            *translation,
            total_label@,
            size_body,
            nfb,
            bfb,
        ));
    }
    y - 120
}

/// The six-column table header band at height y: the tinted rectangle and
/// the bold column labels 5 units above its base, at the fixed column
/// offsets 50, 230, 280, 350, 420 and 490.
pub open spec fn spec_invoice_table_header(
    y: int,
    product: Seq<char>,
    quantity: Seq<char>,
    unit_price: Seq<char>,
    discount: Seq<char>,
    tax: Seq<char>,
    total: Seq<char>,
    background: Rgb,
    size_label: u32,
    bfb: bool,
) -> Seq<OpV> {
    seq![(OpV::Rect { x: 50, y, w: 495, h: 20, color: background })] + seq![
        spec_text_op(50, y + 5, product, size_label, true, bfb),
    ] + seq![spec_text_op(230, y + 5, quantity, size_label, true, bfb)] + seq![
        spec_text_op(280, y + 5, unit_price, size_label, true, bfb),
    ] + seq![spec_text_op(350, y + 5, discount, size_label, true, bfb)] + seq![
        spec_text_op(420, y + 5, tax, size_label, true, bfb),
    ] + seq![spec_text_op(490, y + 5, total, size_label, true, bfb)]
}

/// Draws the six-column table header band.
pub fn draw_invoice_table_header(
    y: i128,
    product: &str,
    quantity: &str,
    unit_price: &str,
    discount: &str,
    tax: &str,
    total: &str,
    background: Rgb,
    size_label: u32,
    fonts: &FontBundle,
) -> (ops: Vec<DrawOp>)
    requires
        -1_000_000_000_000 <= y <= 1_000_000_000_000,
    ensures
        ops_view(ops@) == spec_invoice_table_header(
            y as int,
            product@,
            quantity@,
            unit_price@,
            discount@,
            tax@,
            total@,
            background,
            size_label,
            spec_bfb(*fonts),
        ),
{
    let ghost bfb = spec_bfb(*fonts);
    let mut local: Vec<DrawOp> = Vec::new();
    local.push(DrawOp::Rect { x: 50, y, w: 495, h: 20, color: background });
    let ghost mut acc: Seq<OpV> = ops_view(local@);
    proof {
        assert(acc =~= seq![(OpV::Rect { x: 50, y: y as int, w: 495, h: 20, color: background })]);
    }
    let mut t = draw_bold_text(50, y + 5, product, size_label, fonts);
    proof {
        lemma_ops_view_concat(local@, t@);
        acc = acc + ops_view(t@);
    }
    local.append(&mut t);
    proof {
        assert(ops_view(local@) == acc);
    }
    let mut t = draw_bold_text(230, y + 5, quantity, size_label, fonts);
    proof {
        lemma_ops_view_concat(local@, t@);
        acc = acc + ops_view(t@);
    }
    local.append(&mut t);
    proof {
        assert(ops_view(local@) == acc);
    }
    let mut t = draw_bold_text(280, y + 5, unit_price, size_label, fonts);
    proof {
        lemma_ops_view_concat(local@, t@);
        acc = acc + ops_view(t@);
    }
    local.append(&mut t);
    proof {
        assert(ops_view(local@) == acc);
    }
    let mut t = draw_bold_text(350, y + 5, discount, size_label, fonts);
    proof {
        lemma_ops_view_concat(local@, t@);
        acc = acc + ops_view(t@);
    }
    local.append(&mut t);
    proof {
        assert(ops_view(local@) == acc);
    }
    let mut t = draw_bold_text(420, y + 5, tax, size_label, fonts);
    proof {
        lemma_ops_view_concat(local@, t@);
        acc = acc + ops_view(t@);
    }
    local.append(&mut t);
    proof {
        assert(ops_view(local@) == acc);
    }
    let mut t = draw_bold_text(490, y + 5, total, size_label, fonts);
    proof {
        lemma_ops_view_concat(local@, t@);
        acc = acc + ops_view(t@);
    }
    local.append(&mut t);
    proof {
        assert(ops_view(local@) == acc);
        assert(acc == spec_invoice_table_header(
            y as int,
            product@,
            quantity@,
            unit_price@,
            discount@,
            tax@,
            total@,
            background,
            size_label,
            bfb,
        ));
    }
    local
}

/// An item row draws text only: its operations always serialize.
pub proof fn lemma_invoice_row_images_ok(
    y: int,
    it: OrderLineItem,
    currency: Seq<char>,
    size_body: u32,
    nfb: bool,
)
    ensures
        images_decode(spec_invoice_row(y, it, currency, size_body, nfb)),
{
    broadcast use lemma_images_decode_concat;

    let desc = spec_truncate(spec_item_desc(it), 25);
    let qty = spec_signed_digits(it.quantity as int);
    let unit = spec_money_string(it.unit_price.cents as int, currency);
    let disc = spec_money_string(it.discount_total.cents as int, currency);
    let tax = spec_money_string(it.tax_total.cents as int, currency);
    let tot = spec_money_string(it.total.cents as int, currency);
    lemma_images_decode_one(spec_text_op(50, y, desc, size_body, false, nfb));
    lemma_images_decode_one(
        spec_text_op(265 - 6 * (qty.len() as int), y, qty, size_body, false, nfb),
    );
    lemma_images_decode_one(
        spec_text_op(325 - 6 * (unit.len() as int), y, unit, size_body, false, nfb),
    );
    lemma_images_decode_one(
        spec_text_op(395 - 6 * (disc.len() as int), y, disc, size_body, false, nfb),
    );
    lemma_images_decode_one(
        spec_text_op(465 - 6 * (tax.len() as int), y, tax, size_body, false, nfb),
    );
    lemma_images_decode_one(
        spec_text_op(535 - 6 * (tot.len() as int), y, tot, size_body, false, nfb),
    );
}

/// The whole row list serializes.
pub proof fn lemma_invoice_rows_images_ok(
    items: Seq<OrderLineItem>,
    y: int,
    currency: Seq<char>,
    size_body: u32,
    nfb: bool,
)
    ensures
        images_decode(spec_invoice_rows(items, y, currency, size_body, nfb)),
    decreases items.len(),
{
    broadcast use lemma_images_decode_concat;

    if items.len() == 0 {
        lemma_images_decode_empty();
    } else {
        lemma_invoice_row_images_ok(y, items[0], currency, size_body, nfb);
        lemma_invoice_rows_images_ok(items.drop_first(), y - 20, currency, size_body, nfb);
    }
}

/// A totals row draws a tinted band and text: it always serializes.
pub proof fn lemma_total_row_images_ok(
    y: int,
    label: Seq<char>,
    cents: int,
    currency: Seq<char>,
    size_body: u32,
    nfb: bool,
    bfb: bool,
)
    ensures
        images_decode(spec_total_row(y, label, cents, currency, size_body, nfb, bfb)),
{
    broadcast use lemma_images_decode_concat;

    let money = spec_money_string(cents, currency);
    lemma_images_decode_one(
        (OpV::Rect { x: 350, y, w: 215, h: 15, color: Rgb { r: 95, g: 95, b: 95 } }),
    );
    lemma_images_decode_one(spec_text_op(355, y + 2, label, size_body, true, bfb));
    lemma_images_decode_one(
        spec_text_op(535 - 6 * (money.len() as int), y + 2, money, size_body, false, nfb),
    );
}

/// The totals block serializes.
pub proof fn lemma_totals_block_images_ok(
    y: int,
    o: Order,
    d: Dictionary,
    total_label: Seq<char>,
    size_body: u32,
    nfb: bool,
    bfb: bool,
)
    ensures
        images_decode(spec_totals_block(y, o, d, total_label, size_body, nfb, bfb)),
{
    broadcast use lemma_images_decode_concat;

    lemma_total_row_images_ok(
        y - 20,
        d.subtotal_before_discount_label@,
        o.subtotal_before_discount.cents as int,
        o.currency@,
        size_body,
        nfb,
        bfb,
    );
    lemma_total_row_images_ok(
        y - 40,
        d.discount_label@,
        o.discount_total.cents as int,
        o.currency@,
        size_body,
        nfb,
        bfb,
    );
    lemma_total_row_images_ok(
        y - 60,
        d.subtotal_label@,
        o.subtotal.cents as int,
        o.currency@,
        size_body,
        nfb,
        bfb,
    );
    lemma_total_row_images_ok(
        y - 80,
        d.shipping_label@,
        o.shipping_total.cents as int,
        o.currency@,
        size_body,
        nfb,
        bfb,
    );
    lemma_total_row_images_ok(
        y - 100,
        d.tax_label@,
        o.tax_total.cents as int,
        o.currency@,
        size_body,
        nfb,
        bfb,
    );
    lemma_total_row_images_ok(
        y - 120,
        total_label,
        o.total.cents as int,
        o.currency@,
        size_body,
        nfb,
        bfb,
    );
}

/// The six-column table header band serializes.
pub proof fn lemma_invoice_table_header_images_ok(
    y: int,
    product: Seq<char>,
    quantity: Seq<char>,
    unit_price: Seq<char>,
    discount: Seq<char>,
    tax: Seq<char>,
    total: Seq<char>,
    background: Rgb,
    size_label: u32,
    bfb: bool,
)
    ensures
        images_decode(
            spec_invoice_table_header(
                y,
                product,
                quantity,
                unit_price,
                discount,
                tax,
                total,
                background,
                size_label,
                bfb,
            ),
        ),
{
    broadcast use lemma_images_decode_concat;

    lemma_images_decode_one((OpV::Rect { x: 50, y, w: 495, h: 20, color: background }));
    lemma_images_decode_one(spec_text_op(50, y + 5, product, size_label, true, bfb));
    lemma_images_decode_one(spec_text_op(230, y + 5, quantity, size_label, true, bfb));
    lemma_images_decode_one(spec_text_op(280, y + 5, unit_price, size_label, true, bfb));
    lemma_images_decode_one(spec_text_op(350, y + 5, discount, size_label, true, bfb));
    lemma_images_decode_one(spec_text_op(420, y + 5, tax, size_label, true, bfb));
    lemma_images_decode_one(spec_text_op(490, y + 5, total, size_label, true, bfb));
}

/// The sum of all item quantities, as a plain integer.
pub open spec fn spec_quantity_total(items: Seq<OrderLineItem>) -> int
    decreases items.len(),
{
    if items.len() == 0 {
        0
    } else {
        items[0].quantity + spec_quantity_total(items.drop_first())
    }
}

/// Sums the quantities of all line items.
pub fn total_quantity(items: &Vec<OrderLineItem>) -> (t: i128)
    requires
        items@.len() <= 1_000_000_000,
    ensures
        t as int == spec_quantity_total(items@),
        i128::MIN < t,
{
    let ghost n = items@.len() as int;
    let mut acc: i128 = 0;
    let mut i: usize = items.len();
    proof {
        assert(items@.skip(n) =~= Seq::<OrderLineItem>::empty());
    }
    while i > 0
        invariant
            i <= items@.len(),
            items@.len() <= 1_000_000_000,
            acc as int == spec_quantity_total(items@.skip(i as int)),
            acc >= (i - items@.len()) * 0x8000_0000_0000_0000,
            acc <= (items@.len() - i) * 0x7FFF_FFFF_FFFF_FFFF,
        decreases i,
    {
        i = i - 1;
        let q = items[i].quantity;
        proof {
            assert(items@.skip(i as int)[0] == items@[i as int]);
            assert(items@.skip(i as int).drop_first() =~= items@.skip(i as int + 1));
        }
        acc = acc + (q as i128);
    }
    proof {
        assert(items@.skip(0) =~= items@);
    }
    acc
}

} // verus!

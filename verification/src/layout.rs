//! The shared layout primitives: text runs with script-based font
//! selection, address blocks, table header bands and horizontal rules.
//! Every primitive returns or appends drawing operations whose value is
//! pinned exactly by a specification function of the inputs.
use vstd::prelude::*;
use crate::dictionary::Dictionary;
use crate::fonts::{spec_bfb, spec_nfb, FontBundle};
use crate::ops::{
    image_op_decodes, images_decode, lemma_images_decode_concat, lemma_images_decode_empty,
    lemma_images_decode_one, lemma_images_decode_two, lemma_ops_view_concat, ops_view, runs_view,
    DrawOp, FontSel, OpV, RunV, StyledRun,
};
use crate::properties::DocumentPropertiesDefault;
use crate::script::{segment_text_by_script, segs_view, spec_segment, ScriptClass, SegV};
use crate::types::Address;

verus! {

/// The font drawn for one run: Thai script takes the primary face; any
/// other script takes the fallback face when the bundle has one, else the
/// primary face.
pub open spec fn font_for_run(script: ScriptClass, bold: bool, fb: bool) -> FontSel {
    if script == ScriptClass::Thai {
        if bold {
            FontSel::Bold
        } else {
            FontSel::Normal
        }
    } else if fb {
        if bold {
            FontSel::FallbackBold
        } else {
            FontSel::FallbackNormal
        }
    } else if bold {
        FontSel::Bold
    } else {
        FontSel::Normal
    }
}

/// The styled runs of a string: its script runs, each with its font.
pub open spec fn spec_text_runs(s: Seq<char>, bold: bool, fb: bool) -> Seq<RunV> {
    spec_segment(s).map_values(
        |r: SegV| RunV { font: font_for_run(r.script, bold, fb), text: r.text },
    )
}

/// The one text operation that drawing a string at (x, y) produces.
pub open spec fn spec_text_op(x: int, y: int, s: Seq<char>, size: u32, bold: bool, fb: bool) -> OpV {
    OpV::Text { x, y, size, runs: spec_text_runs(s, bold, fb) }
}

fn draw_text_with(x: i128, y: i128, text: &str, font_size: u32, fonts: &FontBundle, bold: bool) -> (ops: Vec<DrawOp>)
    ensures
        ops_view(ops@) == seq![
            spec_text_op(
                x as int,
                y as int,
                text@,
                font_size,
                bold,
                if bold {
                    spec_bfb(*fonts)
                } else {
                    spec_nfb(*fonts)
                },
            ),
        ],
{
    let segs = segment_text_by_script(text);
    let fb = if bold {
        fonts.bold_fallback.is_some()
    } else {
        fonts.normal_fallback.is_some()
    };
    let mut runs: Vec<StyledRun> = Vec::new();
    let mut i: usize = 0;
    while i < segs.len()
        invariant
            i <= segs@.len(),
            segs_view(segs@) == spec_segment(text@),
            fb == if bold { spec_bfb(*fonts) } else { spec_nfb(*fonts) },
            runs@.len() == i,
            forall|j: int| 0 <= j < i ==> #[trigger] runs@[j]@ == spec_text_runs(text@, bold, fb)[j],
        decreases segs@.len() - i,
    {
        let seg = &segs[i];
        let font = if seg.script == ScriptClass::Thai {
            if bold {
                FontSel::Bold
            } else {
                FontSel::Normal
            }
        } else if fb {
            if bold {
                FontSel::FallbackBold
            } else {
                FontSel::FallbackNormal
            }
        } else if bold {
            FontSel::Bold
        } else {
            FontSel::Normal
        };
        let run = StyledRun { font, text: seg.text.clone() };
        runs.push(run);
        proof {
            assert(segs_view(segs@)[i as int] == segs@[i as int]@);
            assert(run@ =~~= spec_text_runs(text@, bold, fb)[i as int]);
        }
        i = i + 1;
    }
    let mut ops: Vec<DrawOp> = Vec::new();
    ops.push(DrawOp::Text { x, y, size: font_size, runs });
    proof {
        assert(runs_view(runs@) =~~= spec_text_runs(text@, bold, fb));
        assert(ops_view(ops@) =~~= seq![
            spec_text_op(
                x as int,
                y as int,
                text@,
                font_size,
                bold,
                if bold {
                    spec_bfb(*fonts)
                } else {
                    spec_nfb(*fonts)
                },
            ),
        ]);
    }
    ops
}

/// Draws a string in the normal face at (x, y): one text operation whose
/// runs follow the string's script segmentation.
pub fn draw_text(x: i128, y: i128, text: &str, font_size: u32, fonts: &FontBundle) -> (ops: Vec<
    DrawOp,
>)
    ensures
        ops_view(ops@) == seq![
            spec_text_op(x as int, y as int, text@, font_size, false, spec_nfb(*fonts)),
        ],
{
    draw_text_with(x, y, text, font_size, fonts, false)
}

/// Draws a string in the bold face at (x, y): one text operation whose
/// runs follow the string's script segmentation.
pub fn draw_bold_text(x: i128, y: i128, text: &str, font_size: u32, fonts: &FontBundle) -> (ops:
    Vec<DrawOp>)
    ensures
        ops_view(ops@) == seq![
            spec_text_op(x as int, y as int, text@, font_size, true, spec_bfb(*fonts)),
        ],
{
    draw_text_with(x, y, text, font_size, fonts, true)
}

/// Whether an optional field is present and non-empty.
pub open spec fn opt_present(o: Option<String>) -> bool {
    o is Some && o->0@.len() > 0
}

/// The text of an optional field, empty when absent.
pub open spec fn opt_text(o: Option<String>) -> Seq<char> {
    match o {
        Some(s) => s@,
        None => Seq::empty(),
    }
}

/// The "city, state zip" line of an address.
pub open spec fn spec_city_line(a: Address) -> Seq<char> {
    a.city@ + ", "@ + a.state@ + " "@ + a.zip@
}

/// Whether the address has a phone or VAT line to draw.
pub open spec fn spec_has_contact(a: Address) -> bool {
    opt_present(a.phone) || opt_present(a.vat_number)
}

/// How far the cursor moves down while drawing an address block: 12 units
/// for each line drawn (title, recipient, street, city line, country, and
/// each present optional line) plus an 8 unit gap before the first contact
/// line when one is present.
pub open spec fn spec_address_drop(a: Address) -> int {
    60int + (if opt_present(a.company_name) {
        12int
    } else {
        0int
    }) + (if opt_present(a.street2) {
        12int
    } else {
        0int
    }) + (if spec_has_contact(a) {
        8int
    } else {
        0int
    }) + (if opt_present(a.phone) {
        12int
    } else {
        0int
    }) + (if opt_present(a.vat_number) {
        12int
    } else {
        0int
    })
}

/// The operations of one address block at (x, y): bold title, recipient,
/// optional company, street, optional second street line, city line and
/// country, then phone and VAT lines for the present contact fields, each
/// a bold label with the value 50 units to the right.  Absent optional
/// fields are skipped, not blanked.
pub open spec fn spec_address_ops(
    x: int,
    y: int,
    title: Seq<char>,
    a: Address,
    size_label: u32,
    size_body: u32,
    phone_label: Seq<char>,
    vat_label: Seq<char>,
    nfb: bool,
    bfb: bool,
) -> Seq<OpV> {
    let c1 = if opt_present(a.company_name) {
        12int
    } else {
        0int
    };
    let c2 = if opt_present(a.street2) {
        12int
    } else {
        0int
    };
    let c3 = if spec_has_contact(a) {
        8int
    } else {
        0int
    };
    let c4 = if opt_present(a.phone) {
        12int
    } else {
        0int
    };
    seq![spec_text_op(x, y, title, size_label, true, bfb)] + seq![
        spec_text_op(x, y - 12, opt_text(a.recipient_name), size_body, false, nfb),
    ] + (if opt_present(a.company_name) {
        seq![spec_text_op(x, y - 24, opt_text(a.company_name), size_body, false, nfb)]
    } else {
        Seq::empty()
    }) + seq![spec_text_op(x, y - 24 - c1, a.street@, size_body, false, nfb)] + (
    if opt_present(a.street2) {
        seq![spec_text_op(x, y - 36 - c1, opt_text(a.street2), size_body, false, nfb)]
    } else {
        Seq::empty()
    }) + seq![spec_text_op(x, y - 36 - c1 - c2, spec_city_line(a), size_body, false, nfb)] + seq![
        spec_text_op(x, y - 48 - c1 - c2, a.country@, size_body, false, nfb),
    ] + (if opt_present(a.phone) {
        seq![
            spec_text_op(x, y - 60 - c1 - c2 - c3, phone_label, size_label, true, bfb),
            spec_text_op(x + 50, y - 60 - c1 - c2 - c3, opt_text(a.phone), size_body, false, nfb),
        ]
    } else {
        Seq::empty()
    }) + (if opt_present(a.vat_number) {
        seq![
            spec_text_op(x, y - 60 - c1 - c2 - c3 - c4, vat_label, size_label, true, bfb),
            spec_text_op(
                x + 50,
                y - 60 - c1 - c2 - c3 - c4,
                opt_text(a.vat_number),
                size_body,
                false,
                nfb,
            ),
        ]
    } else {
        Seq::empty()
    })
}
/// Draws one address block at (x, y), appending to `ops`, and returns the
/// cursor position under the block.  An address with fewer present
/// optional fields ends higher (at a larger y) than one with more.
#[verifier::rlimit(80)]
pub fn draw_address(
    props: &DocumentPropertiesDefault,
    translation: &Dictionary,
    ops: &mut Vec<DrawOp>,
    x: i128,
    y: i128,
    title: &str,
    address: &Address,
    fonts: &FontBundle,
) -> (end_y: i128)
    requires
        x <= i128::MAX - 50,
        i128::MIN + 200 <= y,
    ensures
        ops_view(final(ops)@) == ops_view(old(ops)@) + spec_address_ops(
            x as int,
            y as int,
            title@,
            *address,
            props.font_size_label,
            props.font_size_body,
            translation.phone_label@,
            translation.vat_label@,
            spec_nfb(*fonts),
            spec_bfb(*fonts),
        ),
        end_y as int == y - spec_address_drop(*address),
{
    let ghost a = *address;
    let ghost sx = x as int;
    let ghost sy = y as int;
    let ghost nfb = spec_nfb(*fonts);
    let ghost bfb = spec_bfb(*fonts);
    let ghost c1: int = if opt_present(a.company_name) { 12int } else { 0int };
    let ghost c2: int = if opt_present(a.street2) { 12int } else { 0int };
    let ghost c3: int = if spec_has_contact(a) { 8int } else { 0int };
    let ghost c4: int = if opt_present(a.phone) { 12int } else { 0int };

    let mut current_y = y;

    // Title line.
    let mut local = draw_bold_text(x, current_y, title, props.font_size_label, fonts);
    let ghost mut acc: Seq<OpV> = ops_view(local@);
    proof {
        assert(acc == seq![spec_text_op(sx, sy, title@, props.font_size_label, true, bfb)]);
    }
    current_y = current_y - 12;

    // Recipient line, empty when no recipient is named.
    let recipient = match &address.recipient_name {
        Some(s) => s.as_str(),
        None => "",
    };
    let mut t = draw_text(x, current_y, recipient, props.font_size_body, fonts);
    proof {
        reveal_strlit("");
        assert(""@ =~= Seq::<char>::empty());
        assert(recipient@ == opt_text(a.recipient_name));
        lemma_ops_view_concat(local@, t@);
        acc = acc + seq![
            spec_text_op(sx, sy - 12, opt_text(a.recipient_name), props.font_size_body, false, nfb),
        ];
    }
    local.append(&mut t);
    proof {
        assert(ops_view(local@) == acc);
    }
    current_y = current_y - 12;

    // Company line, only when present and non-empty.
    let ghost company_piece: Seq<OpV> = if opt_present(a.company_name) {
        seq![spec_text_op(sx, sy - 24, opt_text(a.company_name), props.font_size_body, false, nfb)]
    } else {
        Seq::empty()
    };
    if let Some(company) = &address.company_name {
        if !company.as_str().is_empty() {
            let mut t = draw_text(x, current_y, company.as_str(), props.font_size_body, fonts);
            proof {
                assert(company@ == opt_text(a.company_name));
                lemma_ops_view_concat(local@, t@);
                acc = acc + company_piece;
            }
            local.append(&mut t);
            proof {
                assert(ops_view(local@) == acc);
            }
            current_y = current_y - 12;
        } else {
            proof {
                acc = acc + company_piece;
                assert(ops_view(local@) =~= acc);
            }
        }
    } else {
        proof {
            acc = acc + company_piece;
            assert(ops_view(local@) =~= acc);
        }
    }

    // Street line.
    proof {
        assert(current_y as int == sy - 24 - c1);
    }
    let mut t = draw_text(x, current_y, address.street.as_str(), props.font_size_body, fonts);
    proof {
        lemma_ops_view_concat(local@, t@);
        acc = acc + seq![spec_text_op(sx, sy - 24 - c1, a.street@, props.font_size_body, false, nfb)];
    }
    local.append(&mut t);
    proof {
        assert(ops_view(local@) == acc);
    }
    current_y = current_y - 12;

    // Second street line, only when present and non-empty.
    let ghost street2_piece: Seq<OpV> = if opt_present(a.street2) {
        seq![spec_text_op(sx, sy - 36 - c1, opt_text(a.street2), props.font_size_body, false, nfb)]
    } else {
        Seq::empty()
    };
    if let Some(street2) = &address.street2 {
        if !street2.as_str().is_empty() {
            let mut t = draw_text(x, current_y, street2.as_str(), props.font_size_body, fonts);
            proof {
                assert(street2@ == opt_text(a.street2));
                lemma_ops_view_concat(local@, t@);
                acc = acc + street2_piece;
            }
            local.append(&mut t);
            proof {
                assert(ops_view(local@) == acc);
            }
            current_y = current_y - 12;
        } else {
            proof {
                acc = acc + street2_piece;
                assert(ops_view(local@) =~= acc);
            }
        }
    } else {
        proof {
            acc = acc + street2_piece;
            assert(ops_view(local@) =~= acc);
        }
    }

    // The "city, state zip" line.
    proof {
        assert(current_y as int == sy - 36 - c1 - c2);
    }
    let mut line = address.city.clone();
    line.append(", ");
    line.append(address.state.as_str());
    line.append(" ");
    line.append(address.zip.as_str());
    let mut t = draw_text(x, current_y, line.as_str(), props.font_size_body, fonts);
    proof {
        assert(line@ =~= spec_city_line(a));
        lemma_ops_view_concat(local@, t@);
        acc = acc + seq![
            spec_text_op(sx, sy - 36 - c1 - c2, spec_city_line(a), props.font_size_body, false, nfb),
        ];
    }
    local.append(&mut t);
    proof {
        assert(ops_view(local@) == acc);
    }
    current_y = current_y - 12;

    // Country line.
    let mut t = draw_text(x, current_y, address.country.as_str(), props.font_size_body, fonts);
    proof {
        lemma_ops_view_concat(local@, t@);
        acc = acc + seq![
            spec_text_op(sx, sy - 48 - c1 - c2, a.country@, props.font_size_body, false, nfb),
        ];
    }
    local.append(&mut t);
    proof {
        assert(ops_view(local@) == acc);
    }
    current_y = current_y - 12;

    // An 8 unit gap before the first contact line, when one is coming.
    let has_phone = match &address.phone {
        Some(p) => !p.as_str().is_empty(),
        None => false,
    };
    let has_vat = match &address.vat_number {
        Some(v) => !v.as_str().is_empty(),
        None => false,
    };
    if has_phone || has_vat {
        current_y = current_y - 8;
    }
    proof {
        assert(current_y as int == sy - 60 - c1 - c2 - c3);
    }

    // Phone line: bold label with the number 50 units to the right.
    let ghost phone_piece: Seq<OpV> = if opt_present(a.phone) {
        seq![
            spec_text_op(
                sx,
                sy - 60 - c1 - c2 - c3,
                translation.phone_label@,
                props.font_size_label,
                true,
                bfb,
            ),
            spec_text_op(
                sx + 50,
                sy - 60 - c1 - c2 - c3,
                opt_text(a.phone),
                props.font_size_body,
                false,
                nfb,
            ),
        ]
    } else {
        Seq::empty()
    };
    if let Some(phone) = &address.phone {
        if !phone.as_str().is_empty() {
            let mut t = draw_bold_text(
                x,
                current_y,
                translation.phone_label.as_str(),
                props.font_size_label,
                fonts,
            );
            let mut t2 = draw_text(x + 50, current_y, phone.as_str(), props.font_size_body, fonts);
            proof {
                assert(phone@ == opt_text(a.phone));
                lemma_ops_view_concat(t@, t2@);
            }
            t.append(&mut t2);
            proof {
                assert(ops_view(t@) =~= phone_piece);
                lemma_ops_view_concat(local@, t@);
                acc = acc + phone_piece;
            }
            local.append(&mut t);
            proof {
                assert(ops_view(local@) == acc);
            }
            current_y = current_y - 12;
        } else {
            proof {
                acc = acc + phone_piece;
                assert(ops_view(local@) =~= acc);
            }
        }
    } else {
        proof {
            acc = acc + phone_piece;
            assert(ops_view(local@) =~= acc);
        }
    }

    // VAT line: bold label with the number 50 units to the right.
    proof {
        assert(current_y as int == sy - 60 - c1 - c2 - c3 - c4);
    }
    let ghost vat_piece: Seq<OpV> = if opt_present(a.vat_number) {
        seq![
            spec_text_op(
                sx,
                sy - 60 - c1 - c2 - c3 - c4,
                translation.vat_label@,
                props.font_size_label,
                true,
                bfb,
            ),
            spec_text_op(
                sx + 50,
                sy - 60 - c1 - c2 - c3 - c4,
                opt_text(a.vat_number),
                props.font_size_body,
                false,
                nfb,
            ),
        ]
    } else {
        Seq::empty()
    };
    if let Some(vat) = &address.vat_number {
        if !vat.as_str().is_empty() {
            let mut t = draw_bold_text(
                x,
                current_y,
                translation.vat_label.as_str(),
                props.font_size_label,
                fonts,
            );
            let mut t2 = draw_text(x + 50, current_y, vat.as_str(), props.font_size_body, fonts);
            proof {
                assert(vat@ == opt_text(a.vat_number));
                lemma_ops_view_concat(t@, t2@);
            }
            t.append(&mut t2);
            proof {
                assert(ops_view(t@) =~= vat_piece);
                lemma_ops_view_concat(local@, t@);
                acc = acc + vat_piece;
            }
            local.append(&mut t);
            proof {
                assert(ops_view(local@) == acc);
            }
            current_y = current_y - 12;
        } else {
            proof {
                acc = acc + vat_piece;
                assert(ops_view(local@) =~= acc);
            }
        }
    } else {
        proof {
            acc = acc + vat_piece;
            assert(ops_view(local@) =~= acc);
        }
    }

    proof {
        assert(acc == spec_address_ops(
            sx,
            sy,
            title@,
            a,
            props.font_size_label,
            props.font_size_body,
            translation.phone_label@,
            translation.vat_label@,
            nfb,
            bfb,
        ));
        lemma_ops_view_concat(ops@, local@);
    }
    ops.append(&mut local);
    proof {
        assert(ops_view(ops@) == ops_view(old(ops)@) + acc);
        assert(current_y as int == sy - spec_address_drop(a));
    }
    current_y
}


/// The cursor position under the lower of the two address columns, 20
/// units above the rule that closes the section.
pub open spec fn spec_addresses_line_y(ship: Address, bill: Address) -> int {
    let sy = 610 - spec_address_drop(ship);
    let by = 610 - spec_address_drop(bill);
    (if sy <= by {
        sy
    } else {
        by
    }) - 20
}

/// The two-column address block: ship-to at x 50 and the second column at
/// x 300, both starting at y 610, closed by a horizontal rule 20 units
/// under the taller column's end.
pub open spec fn spec_addresses_ops(
    ship: Address,
    bill: Address,
    ship_label: Seq<char>,
    bill_label: Seq<char>,
    size_label: u32,
    size_body: u32,
    phone_label: Seq<char>,
    vat_label: Seq<char>,
    nfb: bool,
    bfb: bool,
) -> Seq<OpV> {
    spec_address_ops(50, 610, ship_label, ship, size_label, size_body, phone_label, vat_label, nfb, bfb)
        + spec_address_ops(
        300,
        610,
        bill_label,
        bill,
        size_label,
        size_body,
        phone_label,
        vat_label,
        nfb,
        bfb,
    ) + seq![(OpV::Line { x1: 50, x2: 545, y: spec_addresses_line_y(ship, bill) })]
}

/// Draws the two-column address section and returns its operations with
/// the y position of the closing rule.  The next section starts under the
/// rule, so the columns never overlap what follows.
pub fn draw_addresses(
    props: &DocumentPropertiesDefault,
    translation: &Dictionary,
    shipping_address: &Address,
    billing_address: &Address,
    shipping_label: &str,
    billing_label: &str,
    fonts: &FontBundle,
) -> (r: (Vec<DrawOp>, i128))
    ensures
        ops_view(r.0@) == spec_addresses_ops(
            *shipping_address,
            *billing_address,
            shipping_label@,
            billing_label@,
            props.font_size_label,
            props.font_size_body,
            translation.phone_label@,
            translation.vat_label@,
            spec_nfb(*fonts),
            spec_bfb(*fonts),
        ),
        r.1 as int == spec_addresses_line_y(*shipping_address, *billing_address),
{
    let mut ops: Vec<DrawOp> = Vec::new();
    let ship_y = draw_address(
        props,
        translation,
        &mut ops,
        50,
        610,
        shipping_label,
        shipping_address,
        fonts,
    );
    let bill_y = draw_address(
        props,
        translation,
        &mut ops,
        300,
        610,
        billing_label,
        billing_address,
        fonts,
    );
    let final_y = if ship_y <= bill_y {
        ship_y
    } else {
        bill_y
    };
    let line_y = final_y - 20;
    let ghost before = ops_view(ops@);
    ops.push(DrawOp::Line { x1: 50, x2: 545, y: line_y });
    proof {
        assert(ops_view(ops@) =~= before + seq![
            (OpV::Line { x1: 50, x2: 545, y: line_y as int }),
        ]);
        assert(ops_view(ops@) =~= spec_addresses_ops(
            *shipping_address,
            *billing_address,
            shipping_label@,
            billing_label@,
            props.font_size_label,
            props.font_size_body,
            translation.phone_label@,
            translation.vat_label@,
            spec_nfb(*fonts),
            spec_bfb(*fonts),
        ));
    }
    (ops, line_y)
}

/// Draws the tinted band behind a table header row: a filled rectangle
/// from x 50 to 545, 20 units tall, in the configured background color.
pub fn draw_table_header_background(props: &DocumentPropertiesDefault, current_y: i128) -> (ops:
    Vec<DrawOp>)
    ensures
        ops_view(ops@) == seq![
            (OpV::Rect {
                x: 50,
                y: current_y as int,
                w: 495,
                h: 20,
                color: props.background_color,
            }),
        ],
{
    let mut ops: Vec<DrawOp> = Vec::new();
    ops.push(
        DrawOp::Rect { x: 50, y: current_y, w: 495, h: 20, color: props.background_color },
    );
    proof {
        assert(ops_view(ops@) =~= seq![
            (OpV::Rect {
                x: 50,
                y: current_y as int,
                w: 495,
                h: 20,
                color: props.background_color,
            }),
        ]);
    }
    ops
}

/// A horizontal rule across the content area at height y.
pub fn draw_horizontal_line(y: i128) -> (op: DrawOp)
    ensures
        op@ == (OpV::Line { x1: 50, x2: 545, y: y as int }),
{
    DrawOp::Line { x1: 50, x2: 545, y }
}

/// An address block draws text lines only, so its operations always
/// serialize.
pub proof fn lemma_address_ops_images_ok(
    x: int,
    y: int,
    title: Seq<char>,
    a: Address,
    size_label: u32,
    size_body: u32,
    phone_label: Seq<char>,
    vat_label: Seq<char>,
    nfb: bool,
    bfb: bool,
)
    ensures
        images_decode(
            spec_address_ops(x, y, title, a, size_label, size_body, phone_label, vat_label, nfb, bfb),
        ),
{
    broadcast use lemma_images_decode_concat;

    let c1: int = if opt_present(a.company_name) {
        12int
    } else {
        0int
    };
    let c2: int = if opt_present(a.street2) {
        12int
    } else {
        0int
    };
    let c3: int = if spec_has_contact(a) {
        8int
    } else {
        0int
    };
    lemma_images_decode_empty();
    lemma_images_decode_one(spec_text_op(x, y, title, size_label, true, bfb));
    lemma_images_decode_one(
        spec_text_op(x, y - 12, opt_text(a.recipient_name), size_body, false, nfb),
    );
    lemma_images_decode_one(
        spec_text_op(x, y - 24, opt_text(a.company_name), size_body, false, nfb),
    );
    lemma_images_decode_one(spec_text_op(x, y - 24 - c1, a.street@, size_body, false, nfb));
    lemma_images_decode_one(
        spec_text_op(x, y - 36 - c1, opt_text(a.street2), size_body, false, nfb),
    );
    lemma_images_decode_one(
        spec_text_op(x, y - 36 - c1 - c2, spec_city_line(a), size_body, false, nfb),
    );
    lemma_images_decode_one(spec_text_op(x, y - 48 - c1 - c2, a.country@, size_body, false, nfb));
    lemma_images_decode_two(
        spec_text_op(x, y - 60 - c1 - c2 - c3, phone_label, size_label, true, bfb),
        spec_text_op(x + 50, y - 60 - c1 - c2 - c3, opt_text(a.phone), size_body, false, nfb),
    );
    let c4: int = if opt_present(a.phone) {
        12int
    } else {
        0int
    };
    lemma_images_decode_two(
        spec_text_op(x, y - 60 - c1 - c2 - c3 - c4, vat_label, size_label, true, bfb),
        spec_text_op(
            x + 50,
            y - 60 - c1 - c2 - c3 - c4,
            opt_text(a.vat_number),
            size_body,
            false,
            nfb,
        ),
    );
}

/// The two-column address section draws text and one rule: its operations
/// always serialize.
pub proof fn lemma_addresses_ops_images_ok(
    ship: Address,
    bill: Address,
    ship_label: Seq<char>,
    bill_label: Seq<char>,
    size_label: u32,
    size_body: u32,
    phone_label: Seq<char>,
    vat_label: Seq<char>,
    nfb: bool,
    bfb: bool,
)
    ensures
        images_decode(
            spec_addresses_ops(
                ship,
                bill,
                ship_label,
                bill_label,
                size_label,
                size_body,
                phone_label,
                vat_label,
                nfb,
                bfb,
            ),
        ),
{
    broadcast use lemma_images_decode_concat;

    lemma_address_ops_images_ok(
        50,
        610,
        ship_label,
        ship,
        size_label,
        size_body,
        phone_label,
        vat_label,
        nfb,
        bfb,
    );
    lemma_address_ops_images_ok(
        300,
        610,
        bill_label,
        bill,
        size_label,
        size_body,
        phone_label,
        vat_label,
        nfb,
        bfb,
    );
    lemma_images_decode_one(
        (OpV::Line { x1: 50, x2: 545, y: spec_addresses_line_y(ship, bill) }),
    );
}

/// An address with no optional fields present draws none of the optional
/// lines — exactly the five base lines: title, recipient, street, city
/// line and country — and its block ends at a higher cursor position than
/// an otherwise-identical address with every optional field populated.
pub proof fn lemma_address_optional_lines(
    x: int,
    y: int,
    title: Seq<char>,
    bare: Address,
    full: Address,
    size_label: u32,
    size_body: u32,
    phone_label: Seq<char>,
    vat_label: Seq<char>,
    nfb: bool,
    bfb: bool,
)
    requires
        !opt_present(bare.company_name),
        !opt_present(bare.street2),
        !opt_present(bare.phone),
        !opt_present(bare.vat_number),
        opt_present(full.company_name),
        opt_present(full.street2),
        opt_present(full.phone),
        opt_present(full.vat_number),
    ensures
        spec_address_ops(
            x,
            y,
            title,
            bare,
            size_label,
            size_body,
            phone_label,
            vat_label,
            nfb,
            bfb,
        ).len() == 5,
        spec_address_drop(bare) == 60,
        spec_address_drop(full) == 116,
        y - spec_address_drop(bare) > y - spec_address_drop(full),
{
    assert(spec_address_drop(bare) == 60);
    assert(spec_address_drop(full) == 116);
    let ops = spec_address_ops(x, y, title, bare, size_label, size_body, phone_label, vat_label, nfb, bfb);
    assert(ops.len() == 5);
}

} // verus!

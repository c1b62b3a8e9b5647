use tradedoc::dictionary::Dictionary;
use tradedoc::errors::PdfError;
use tradedoc::fonts::load_fonts;
use tradedoc::invoice::generate_pdf_invoice;
use tradedoc::items::total_quantity;
use tradedoc::language::Language;
use tradedoc::layout::{draw_address, draw_table_header_background};
use tradedoc::logo::{draw_logo, is_svg_data};
use tradedoc::ops::DrawOp;
use tradedoc::packing_list::generate_pdf_packing_list;
use tradedoc::proforma_invoice::generate_pdf_proforma_invoice;
use tradedoc::properties::{DocumentProperties, Rgb};
use tradedoc::types::{Address, DateTime, Money, Order, OrderLineItem};

fn sample_address(name: &str) -> Address {
    Address {
        recipient_name: Some(name.to_string()),
        company_name: Some("Sample Company GmbH".to_string()),
        street: "Musterstraße 123".to_string(),
        street2: Some("4. Etage".to_string()),
        city: "Frankfurt am Main".to_string(),
        state: "Hesse".to_string(),
        country: "Germany".to_string(),
        zip: "60311".to_string(),
        phone: Some("+49 69 123 456 789".to_string()),
        vat_number: Some("DE123456789".to_string()),
    }
}

fn bare_address() -> Address {
    Address {
        recipient_name: Some("John Doe".to_string()),
        company_name: None,
        street: "Musterstraße 123".to_string(),
        street2: None,
        city: "Frankfurt am Main".to_string(),
        state: "Hesse".to_string(),
        country: "Germany".to_string(),
        zip: "60311".to_string(),
        phone: None,
        vat_number: None,
    }
}

fn sample_data() -> (Order, Vec<OrderLineItem>, Address) {
    let when = DateTime { year: 2023, month: 1, day: 1, hour: 12, minute: 0, second: 0 };
    let order = Order {
        id: "ORD-2023-001".to_string(),
        shipping_address: sample_address("John Doe"),
        billing_address: sample_address("Jane Doe"),
        currency: "€".to_string(),
        status: "Completed".to_string(),
        shipping_method: "Express".to_string(),
        shipping_total: Money { cents: 1500 },
        subtotal_before_discount: Money { cents: 50000 },
        discount_total: Money { cents: 5000 },
        subtotal: Money { cents: 45000 },
        tax_total: Money { cents: 9000 },
        total: Money { cents: 55500 },
        notes: Some("Vielen Dank für Ihr Vertrauen!".to_string()),
        created_at: when,
        updated_at: when,
    };
    // Item A: quantity 2 at a unit price of 150.00; item B: quantity 1 at
    // 200.00.
    let items = vec![
        OrderLineItem {
            id: "ITEM1".to_string(),
            title: "Premium Widget".to_string(),
            sku: Some("WDG-001".to_string()),
            quantity: 2,
            unit_price: Money { cents: 15000 },
            unit_tax: Money { cents: 3000 },
            unit_discount: Money { cents: 1500 },
            subtotal_before_discount: Money { cents: 30000 },
            discount_total: Money { cents: 3000 },
            subtotal: Money { cents: 27000 },
            tax_total: Money { cents: 5400 },
            total: Money { cents: 32400 },
        },
        OrderLineItem {
            id: "ITEM2".to_string(),
            title: "Basic Gadget".to_string(),
            sku: Some("GDG-001".to_string()),
            quantity: 1,
            unit_price: Money { cents: 20000 },
            unit_tax: Money { cents: 4000 },
            unit_discount: Money { cents: 2000 },
            subtotal_before_discount: Money { cents: 20000 },
            discount_total: Money { cents: 2000 },
            subtotal: Money { cents: 18000 },
            tax_total: Money { cents: 3600 },
            total: Money { cents: 21600 },
        },
    ];
    let warehouse = Address {
        recipient_name: None,
        company_name: Some("Hauptlager GmbH".to_string()),
        street: "Lagerstraße 789".to_string(),
        street2: None,
        city: "Frankfurt am Main".to_string(),
        state: "Hesse".to_string(),
        country: "Germany".to_string(),
        zip: "60329".to_string(),
        phone: Some("+49 69 987 654 321".to_string()),
        vat_number: Some("DE987654321".to_string()),
    };
    (order, items, warehouse)
}

fn empty_properties() -> DocumentProperties {
    DocumentProperties {
        font_normal: None,
        font_bold: None,
        background_color: None,
        font_size_title: None,
        font_size_body: None,
        font_size_label: None,
    }
}

fn sample_png() -> Vec<u8> {
    let img = image::RgbaImage::from_pixel(4, 4, image::Rgba([200u8, 10, 10, 255]));
    let mut png: Vec<u8> = Vec::new();
    image::DynamicImage::ImageRgba8(img)
        .write_to(&mut std::io::Cursor::new(&mut png), image::ImageFormat::Png)
        .unwrap();
    png
}

const SAMPLE_SVG: &str = "<svg xmlns=\"http://www.w3.org/2000/svg\" width=\"10\" height=\"10\"><rect width=\"10\" height=\"10\" fill=\"red\"/></svg>";

#[test]
fn invoice_bytes_start_with_the_pdf_signature() {
    let (order, items, warehouse) = sample_data();
    let bytes = generate_pdf_invoice(
        &order,
        &items,
        &warehouse,
        empty_properties(),
        Dictionary::for_language(Language::English),
        None,
        None,
        None,
    )
    .unwrap();
    assert!(!bytes.is_empty());
    assert_eq!(&bytes[0..5], b"%PDF-");
}

#[test]
fn packing_list_total_items_is_the_quantity_sum() {
    let (_, items, _) = sample_data();
    assert_eq!(total_quantity(&items), 3);
}

#[test]
fn packing_list_and_proforma_generate_valid_signatures() {
    let (order, items, warehouse) = sample_data();
    let bytes = generate_pdf_packing_list(
        &order,
        &items,
        &warehouse,
        empty_properties(),
        Dictionary::for_language(Language::German),
        None,
    )
    .unwrap();
    assert_eq!(&bytes[0..5], b"%PDF-");
    let bytes = generate_pdf_proforma_invoice(
        &order,
        &items,
        &warehouse,
        empty_properties(),
        Dictionary::for_language(Language::Thai),
    )
    .unwrap();
    assert_eq!(&bytes[0..5], b"%PDF-");
}

#[test]
fn generation_is_deterministic() {
    let (order, items, warehouse) = sample_data();
    let png = sample_png();
    let first = generate_pdf_invoice(
        &order,
        &items,
        &warehouse,
        empty_properties(),
        Dictionary::for_language(Language::English),
        Some(&png),
        None,
        None,
    )
    .unwrap();
    let second = generate_pdf_invoice(
        &order,
        &items,
        &warehouse,
        empty_properties(),
        Dictionary::for_language(Language::English),
        Some(&png),
        None,
        None,
    )
    .unwrap();
    assert_eq!(first, second);
}

#[test]
fn svg_logos_are_rasterized_and_embedded() {
    let (order, items, warehouse) = sample_data();
    let bytes = generate_pdf_invoice(
        &order,
        &items,
        &warehouse,
        empty_properties(),
        Dictionary::for_language(Language::English),
        Some(SAMPLE_SVG.as_bytes()),
        None,
        None,
    )
    .unwrap();
    assert_eq!(&bytes[0..5], b"%PDF-");
}

#[test]
fn unusable_logo_bytes_give_an_image_error() {
    let (order, items, warehouse) = sample_data();
    let result = generate_pdf_invoice(
        &order,
        &items,
        &warehouse,
        empty_properties(),
        Dictionary::for_language(Language::English),
        Some(b"definitely not an image"),
        None,
        None,
    );
    assert!(matches!(result, Err(PdfError::ImageDecode(_))));
    let result = generate_pdf_invoice(
        &order,
        &items,
        &warehouse,
        empty_properties(),
        Dictionary::for_language(Language::English),
        Some(b"<svg but broken"),
        None,
        None,
    );
    assert!(matches!(result, Err(PdfError::ImageDecode(_))));
}

#[test]
fn signature_sniffing_separates_vector_from_raster() {
    assert!(is_svg_data(SAMPLE_SVG.as_bytes()));
    assert!(is_svg_data(b"<?xml version=\"1.0\"?><svg/>"));
    assert!(!is_svg_data(&sample_png()));
    assert!(!is_svg_data(b""));
    assert!(!is_svg_data(b"<s"));
}

#[test]
fn raster_logos_are_carried_through_unchanged() {
    let png = sample_png();
    let ops = draw_logo(50, 790, Some(&png), 80, 24).unwrap();
    assert_eq!(ops.len(), 1);
    match &ops[0] {
        DrawOp::Image { x, y, data, .. } => {
            assert_eq!(*x, 50);
            assert_eq!(*y, 790);
            assert_eq!(data, &png);
        }
        _ => panic!("expected an image operation"),
    }
    let none = draw_logo(50, 790, None, 80, 24).unwrap();
    assert!(none.is_empty());
}

#[test]
fn thai_gets_the_fallback_font_pair() {
    let thai = load_fonts(Language::Thai, Some("Custom"), None);
    assert_eq!(thai.normal, "NotoSansThai");
    assert_eq!(thai.bold, "NotoSansThai-SemiBold");
    assert_eq!(thai.normal_fallback.as_deref(), Some("NotoSans"));
    assert_eq!(thai.bold_fallback.as_deref(), Some("NotoSans-SemiBold"));
    let plain = load_fonts(Language::French, None, None);
    assert_eq!(plain.normal, "Helvetica");
    assert_eq!(plain.bold, "Helvetica-Bold");
    assert!(plain.normal_fallback.is_none());
    assert!(plain.bold_fallback.is_none());
    let custom = load_fonts(Language::French, Some("Courier"), Some("Courier-Bold"));
    assert_eq!(custom.normal, "Courier");
    assert_eq!(custom.bold, "Courier-Bold");
}

#[test]
fn bare_addresses_end_higher_and_draw_fewer_lines() {
    let dict = Dictionary::for_language(Language::English);
    let props = empty_properties().input_or_default();
    let fonts = load_fonts(Language::English, None, None);
    let mut bare_ops: Vec<DrawOp> = Vec::new();
    let bare_end = draw_address(
        &props,
        &dict,
        &mut bare_ops,
        50,
        610,
        "Ship To:",
        &bare_address(),
        &fonts,
    );
    let mut full_ops: Vec<DrawOp> = Vec::new();
    let full_end = draw_address(
        &props,
        &dict,
        &mut full_ops,
        50,
        610,
        "Ship To:",
        &sample_address("John Doe"),
        &fonts,
    );
    // Five base lines only, none of the optional ones.
    assert_eq!(bare_ops.len(), 5);
    assert_eq!(bare_end, 610 - 60);
    // All optional fields drawn: company, street2, gap, phone, VAT.
    assert_eq!(full_ops.len(), 5 + 1 + 1 + 4);
    assert_eq!(full_end, 610 - 116);
    assert!(bare_end > full_end);
}

#[test]
fn table_header_band_uses_the_configured_background() {
    let props = empty_properties().input_or_default();
    let ops = draw_table_header_background(&props, 445);
    assert_eq!(ops.len(), 1);
    match &ops[0] {
        DrawOp::Rect { x, y, w, h, color } => {
            assert_eq!((*x, *y, *w, *h), (50, 445, 495, 20));
            assert_eq!(*color, Rgb { r: 90, g: 90, b: 90 });
        }
        _ => panic!("expected a filled rectangle"),
    }
}

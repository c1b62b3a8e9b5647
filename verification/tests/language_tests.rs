use tradedoc::dictionary::Dictionary;
use tradedoc::language::Language;

#[test]
fn parses_short_codes() {
    assert_eq!(Language::from_str("en"), Some(Language::English));
    assert_eq!(Language::from_str("de"), Some(Language::German));
    assert_eq!(Language::from_str("fr"), Some(Language::French));
    assert_eq!(Language::from_str("es"), Some(Language::Spanish));
    assert_eq!(Language::from_str("pt"), Some(Language::Portuguese));
    assert_eq!(Language::from_str("th"), Some(Language::Thai));
    assert_eq!(Language::from_str("it"), Some(Language::Italian));
}

#[test]
fn parses_full_names_case_insensitively() {
    assert_eq!(Language::from_str("English"), Some(Language::English));
    assert_eq!(Language::from_str("GERMAN"), Some(Language::German));
    assert_eq!(Language::from_str("FrEnCh"), Some(Language::French));
    assert_eq!(Language::from_str("THAI"), Some(Language::Thai));
    assert_eq!(Language::from_str("ES"), Some(Language::Spanish));
}

#[test]
fn rejects_unsupported_selectors() {
    assert_eq!(Language::from_str(""), None);
    assert_eq!(Language::from_str("xx"), None);
    assert_eq!(Language::from_str("engl"), None);
    assert_eq!(Language::from_str("日本語"), None);
}

#[test]
fn codes_and_names_round() {
    assert_eq!(Language::English.code(), "en");
    assert_eq!(Language::Thai.code(), "th");
    assert_eq!(Language::Italian.name(), "Italian");
    assert_eq!(Language::default(), Language::English);
    for lang in [
        Language::English,
        Language::German,
        Language::French,
        Language::Spanish,
        Language::Portuguese,
        Language::Thai,
        Language::Italian,
    ] {
        assert_eq!(Language::from_str(lang.code()), Some(lang));
        assert_eq!(Language::from_str(lang.name()), Some(lang));
    }
}

fn assert_all_fields_nonempty(d: &Dictionary) {
    let fields: Vec<&String> = vec![
        &d.invoice_title,
        &d.from_label,
        &d.ship_to_label,
        &d.bill_to_label,
        &d.phone_label,
        &d.vat_label,
        &d.product_header,
        &d.quantity_header,
        &d.unit_price_header,
        &d.discount_header,
        &d.tax_header,
        &d.total_header,
        &d.subtotal_before_discount_label,
        &d.discount_label,
        &d.subtotal_label,
        &d.shipping_label,
        &d.tax_label,
        &d.total_label,
        &d.notes_label,
        &d.invoice_number_prefix,
        &d.date_label,
        &d.order_status_label,
        &d.packing_list_title,
        &d.proforma_invoice_title,
        &d.sku_header,
        &d.packed_header,
        &d.return_address_label,
        &d.shipping_method_label,
        &d.package_info_title,
        &d.package_weight_label,
        &d.package_dimensions_label,
        &d.carrier_label,
        &d.tracking_number_label,
        &d.total_items_label,
        &d.packer_verification_title,
        &d.packed_by_label,
        &d.signature_label,
        &d.estimated_total_label,
        &d.proforma_notice,
        &d.proforma_footer_notice,
    ];
    for f in fields {
        assert!(!f.is_empty());
    }
}

#[test]
fn every_language_dictionary_is_fully_populated() {
    for lang in [
        Language::English,
        Language::German,
        Language::French,
        Language::Spanish,
        Language::Portuguese,
        Language::Thai,
        Language::Italian,
    ] {
        let d = Dictionary::for_language(lang);
        assert_eq!(d.language, lang);
        assert_all_fields_nonempty(&d);
    }
}

#[test]
fn translations_override_the_base() {
    let en = Dictionary::for_language(Language::English);
    assert_eq!(en.invoice_title, "INVOICE");
    assert_eq!(en.total_label, "Total:");
    let de = Dictionary::for_language(Language::German);
    assert_eq!(de.invoice_title, "RECHNUNG");
    assert_eq!(de.packing_list_title, "PACKLISTE");
    let th = Dictionary::for_language(Language::Thai);
    assert_eq!(th.invoice_title, "ใบแจ้งหนี้");
    let it = Dictionary::for_language(Language::Italian);
    assert_eq!(it.invoice_title, "FATTURA");
}

//! The localized label dictionary: a fixed mapping from document field to
//! localized string, one complete instance per supported language.  Built
//! once via `for_language`, immutable thereafter.  Every language is a full
//! field-by-field override of the English base.
use vstd::prelude::*;
use crate::language::Language;

verus! {

/// The localized label strings for one language, covering all three
/// document kinds.
#[derive(Clone)]
pub struct Dictionary {
    pub language: Language,

    pub invoice_title: String,
    pub from_label: String,
    pub ship_to_label: String,
    pub bill_to_label: String,
    pub phone_label: String,
    pub vat_label: String,
    pub product_header: String,
    pub quantity_header: String,
    pub unit_price_header: String,
    pub discount_header: String,
    pub tax_header: String,
    pub total_header: String,
    pub subtotal_before_discount_label: String,
    pub discount_label: String,
    pub subtotal_label: String,
    pub shipping_label: String,
    pub tax_label: String,
    pub total_label: String,
    pub notes_label: String,
    pub invoice_number_prefix: String,
    pub date_label: String,
    pub order_status_label: String,
    pub packing_list_title: String,
    pub proforma_invoice_title: String,
    pub sku_header: String,
    pub packed_header: String,
    pub return_address_label: String,
    pub shipping_method_label: String,
    pub package_info_title: String,
    pub package_weight_label: String,
    pub package_dimensions_label: String,
    pub carrier_label: String,
    pub tracking_number_label: String,
    pub total_items_label: String,
    pub packer_verification_title: String,
    pub packed_by_label: String,
    pub signature_label: String,
    pub estimated_total_label: String,
    pub proforma_notice: String,
    pub proforma_footer_notice: String,
}

/// Every label field of the dictionary is a non-empty string.
pub open spec fn nonempty_fields(d: Dictionary) -> bool {
    &&& d.invoice_title@.len() > 0
    &&& d.from_label@.len() > 0
    &&& d.ship_to_label@.len() > 0
    &&& d.bill_to_label@.len() > 0
    &&& d.phone_label@.len() > 0
    &&& d.vat_label@.len() > 0
    &&& d.product_header@.len() > 0
    &&& d.quantity_header@.len() > 0
    &&& d.unit_price_header@.len() > 0
    &&& d.discount_header@.len() > 0
    &&& d.tax_header@.len() > 0
    &&& d.total_header@.len() > 0
    &&& d.subtotal_before_discount_label@.len() > 0
    &&& d.discount_label@.len() > 0
    &&& d.subtotal_label@.len() > 0
    &&& d.shipping_label@.len() > 0
    &&& d.tax_label@.len() > 0
    &&& d.total_label@.len() > 0
    &&& d.notes_label@.len() > 0
    &&& d.invoice_number_prefix@.len() > 0
    &&& d.date_label@.len() > 0
    &&& d.order_status_label@.len() > 0
    &&& d.packing_list_title@.len() > 0
    &&& d.proforma_invoice_title@.len() > 0
    &&& d.sku_header@.len() > 0
    &&& d.packed_header@.len() > 0
    &&& d.return_address_label@.len() > 0
    &&& d.shipping_method_label@.len() > 0
    &&& d.package_info_title@.len() > 0
    &&& d.package_weight_label@.len() > 0
    &&& d.package_dimensions_label@.len() > 0
    &&& d.carrier_label@.len() > 0
    &&& d.tracking_number_label@.len() > 0
    &&& d.total_items_label@.len() > 0
    &&& d.packer_verification_title@.len() > 0
    &&& d.packed_by_label@.len() > 0
    &&& d.signature_label@.len() > 0
    &&& d.estimated_total_label@.len() > 0
    &&& d.proforma_notice@.len() > 0
    &&& d.proforma_footer_notice@.len() > 0
}

/// The English labels, field by field.
pub open spec fn is_english(d: Dictionary) -> bool {
    &&& d.language == Language::English
    &&& d.invoice_title@ == "INVOICE"@
    &&& d.from_label@ == "From:"@
    &&& d.ship_to_label@ == "Ship To:"@
    &&& d.bill_to_label@ == "Bill To:"@
    &&& d.phone_label@ == "Phone:"@
    &&& d.vat_label@ == "VAT:"@
    &&& d.product_header@ == "Product"@
    &&& d.quantity_header@ == "Qty"@
    &&& d.unit_price_header@ == "Unit Price"@
    &&& d.discount_header@ == "Discount"@
    &&& d.tax_header@ == "Tax"@
    &&& d.total_header@ == "Total"@
    &&& d.subtotal_before_discount_label@ == "Subtotal Before Discount:"@
    &&& d.discount_label@ == "Discount:"@
    &&& d.subtotal_label@ == "Subtotal:"@
    &&& d.shipping_label@ == "Shipping:"@
    &&& d.tax_label@ == "Tax:"@
    &&& d.total_label@ == "Total:"@
    &&& d.notes_label@ == "Notes:"@
    &&& d.invoice_number_prefix@ == "Invoice #"@
    &&& d.date_label@ == "Date:"@
    &&& d.order_status_label@ == "Order Status:"@
    &&& d.packing_list_title@ == "PACKING LIST"@
    &&& d.proforma_invoice_title@ == "PROFORMA INVOICE"@
    &&& d.sku_header@ == "SKU"@
    &&& d.packed_header@ == "Packed"@
    &&& d.return_address_label@ == "Return Address"@
    &&& d.shipping_method_label@ == "Shipping Method:"@
    &&& d.package_info_title@ == "PACKAGE INFORMATION"@
    &&& d.package_weight_label@ == "Package Weight:"@
    &&& d.package_dimensions_label@ == "Package Dimensions:"@
    &&& d.carrier_label@ == "Carrier:"@
    &&& d.tracking_number_label@ == "Tracking Number:"@
    &&& d.total_items_label@ == "TOTAL ITEMS:"@
    &&& d.packer_verification_title@ == "PACKER VERIFICATION"@
    &&& d.packed_by_label@ == "Packed by:"@
    &&& d.signature_label@ == "Signature:"@
    &&& d.estimated_total_label@ == "Estimated Total"@
    &&& d.proforma_notice@ == "This is not a bill - for estimate purposes only"@
    &&& d.proforma_footer_notice@ == "NOTICE: This proforma invoice is an estimate only and not a request for payment."@
}

/// The German labels, field by field.
pub open spec fn is_german(d: Dictionary) -> bool {
    &&& d.language == Language::German
    &&& d.invoice_title@ == "RECHNUNG"@
    &&& d.from_label@ == "Von:"@
    &&& d.ship_to_label@ == "Versand an:"@
    &&& d.bill_to_label@ == "Rechnungsadresse:"@
    &&& d.phone_label@ == "Telefon:"@
    &&& d.vat_label@ == "USt-IdNr.:"@
    &&& d.product_header@ == "Produkt"@
    &&& d.quantity_header@ == "Menge"@
    &&& d.unit_price_header@ == "Preis"@
    &&& d.discount_header@ == "Rabatt"@
    &&& d.tax_header@ == "Steuer"@
    &&& d.total_header@ == "Gesamt"@
    &&& d.subtotal_before_discount_label@ == "Zwischensumme vor Rabatt:"@
    &&& d.discount_label@ == "Rabatt:"@
    &&& d.subtotal_label@ == "Zwischensumme:"@
    &&& d.shipping_label@ == "Versand:"@
    &&& d.tax_label@ == "Steuer:"@
    &&& d.total_label@ == "Gesamt:"@
    &&& d.notes_label@ == "Notizen:"@
    &&& d.invoice_number_prefix@ == "Rechnung #"@
    &&& d.date_label@ == "Datum:"@
    &&& d.order_status_label@ == "Bestellstatus:"@
    &&& d.packing_list_title@ == "PACKLISTE"@
    &&& d.proforma_invoice_title@ == "PROFORMA RECHNUNG"@
    &&& d.sku_header@ == "SKU"@
    &&& d.packed_header@ == "Verpackt"@
    &&& d.return_address_label@ == "Rücksendeadresse"@
    &&& d.shipping_method_label@ == "Versandart:"@
    &&& d.package_info_title@ == "PAKETINFORMATIONEN"@
    &&& d.package_weight_label@ == "Paketgewicht:"@
    &&& d.package_dimensions_label@ == "Paketabmessungen:"@
    &&& d.carrier_label@ == "Spediteur:"@
    &&& d.tracking_number_label@ == "Sendungsverfolgung:"@
    &&& d.total_items_label@ == "ARTIKEL GESAMT:"@
    &&& d.packer_verification_title@ == "VERPACKUNGSBESTÄTIGUNG"@
    &&& d.packed_by_label@ == "Verpackt von:"@
    &&& d.signature_label@ == "Unterschrift:"@
    &&& d.estimated_total_label@ == "Geschätzte Summe"@
    &&& d.proforma_notice@ == "Dies ist keine Rechnung - nur zur Schätzung"@
    &&& d.proforma_footer_notice@ == "HINWEIS: Diese Proforma-Rechnung ist nur eine Schätzung und keine Zahlungsaufforderung."@
}

/// The French labels, field by field.
pub open spec fn is_french(d: Dictionary) -> bool {
    &&& d.language == Language::French
    &&& d.invoice_title@ == "FACTURE"@
    &&& d.from_label@ == "De"@
    &&& d.ship_to_label@ == "Expédition à:"@
    &&& d.bill_to_label@ == "Adresse de facturation:"@
    &&& d.phone_label@ == "Téléphone:"@
    &&& d.vat_label@ == "Numéro de TVA:"@
    &&& d.product_header@ == "Produit"@
    &&& d.quantity_header@ == "Quantité"@
    &&& d.unit_price_header@ == "Prix unitaire"@
    &&& d.discount_header@ == "Remise"@
    &&& d.tax_header@ == "Taxe"@
    &&& d.total_header@ == "Total"@
    &&& d.subtotal_before_discount_label@ == "Sous-total avant remise:"@
    &&& d.discount_label@ == "Remise:"@
    &&& d.subtotal_label@ == "Sous-total:"@
    &&& d.shipping_label@ == "Expédition:"@
    &&& d.tax_label@ == "Taxe:"@
    &&& d.total_label@ == "Total:"@
    &&& d.notes_label@ == "Remarques:"@
    &&& d.invoice_number_prefix@ == "Facture #"@
    &&& d.date_label@ == "Date:"@
    &&& d.order_status_label@ == "Statut de la commande:"@
    &&& d.packing_list_title@ == "BON DE LIVRAISON"@
    &&& d.proforma_invoice_title@ == "FACTURE PROFORMA"@
    &&& d.sku_header@ == "SKU"@
    &&& d.packed_header@ == "Emballé"@
    &&& d.return_address_label@ == "Adresse de retour"@
    &&& d.shipping_method_label@ == "Méthode d'expédition:"@
    &&& d.package_info_title@ == "INFORMATIONS COLIS"@
    &&& d.package_weight_label@ == "Poids du colis:"@
    &&& d.package_dimensions_label@ == "Dimensions du colis:"@
    &&& d.carrier_label@ == "Transporteur:"@
    &&& d.tracking_number_label@ == "Numéro de suivi:"@
    &&& d.total_items_label@ == "TOTAL ARTICLES:"@
    &&& d.packer_verification_title@ == "VÉRIFICATION EMBALLAGE"@
    &&& d.packed_by_label@ == "Emballé par:"@
    &&& d.signature_label@ == "Signature:"@
    &&& d.estimated_total_label@ == "Total estimé"@
    &&& d.proforma_notice@ == "Ceci n'est pas une facture - à des fins d'estimation uniquement"@
    &&& d.proforma_footer_notice@ == "AVIS: Cette facture proforma est seulement une estimation et non une demande de paiement."@
}

/// The Spanish labels, field by field.
pub open spec fn is_spanish(d: Dictionary) -> bool {
    &&& d.language == Language::Spanish
    &&& d.invoice_title@ == "FACTURA"@
    &&& d.from_label@ == "De:"@
    &&& d.ship_to_label@ == "Enviar a:"@
    &&& d.bill_to_label@ == "Dirección de facturación:"@
    &&& d.phone_label@ == "Teléfono:"@
    &&& d.vat_label@ == "NIF/CIF:"@
    &&& d.product_header@ == "Producto"@
    &&& d.quantity_header@ == "Cantidad"@
    &&& d.unit_price_header@ == "Precio unitario"@
    &&& d.discount_header@ == "Descuento"@
    &&& d.tax_header@ == "Impuestos"@
    &&& d.total_header@ == "Total"@
    &&& d.subtotal_before_discount_label@ == "Subtotal antes descuento:"@
    &&& d.discount_label@ == "Descuento:"@
    &&& d.subtotal_label@ == "Subtotal:"@
    &&& d.shipping_label@ == "Envío:"@
    &&& d.tax_label@ == "Impuestos:"@
    &&& d.total_label@ == "Total:"@
    &&& d.notes_label@ == "Notas:"@
    &&& d.invoice_number_prefix@ == "Factura #"@
    &&& d.date_label@ == "Fecha:"@
    &&& d.order_status_label@ == "Estado del pedido:"@
    &&& d.packing_list_title@ == "ALBARÁN DE ENTREGA"@
    &&& d.proforma_invoice_title@ == "FACTURA PROFORMA"@
    &&& d.sku_header@ == "SKU"@
    &&& d.packed_header@ == "Empaquetado"@
    &&& d.return_address_label@ == "Dirección de devolución"@
    &&& d.shipping_method_label@ == "Método de envío:"@
    &&& d.package_info_title@ == "INFORMACIÓN DEL PAQUETE"@
    &&& d.package_weight_label@ == "Peso del paquete:"@
    &&& d.package_dimensions_label@ == "Dimensiones del paquete:"@
    &&& d.carrier_label@ == "Transportista:"@
    &&& d.tracking_number_label@ == "Número de seguimiento:"@
    &&& d.total_items_label@ == "TOTAL ARTÍCULOS:"@
    &&& d.packer_verification_title@ == "VERIFICACIÓN DE EMPAQUETADO"@
    &&& d.packed_by_label@ == "Empaquetado por:"@
    &&& d.signature_label@ == "Firma:"@
    &&& d.estimated_total_label@ == "Total estimado"@
    &&& d.proforma_notice@ == "Esto no es una factura - solo para fines de estimación"@
    &&& d.proforma_footer_notice@ == "AVISO: Esta factura proforma es solo una estimación y no una solicitud de pago."@
}

/// The Portuguese labels, field by field.
pub open spec fn is_portuguese(d: Dictionary) -> bool {
    &&& d.language == Language::Portuguese
    &&& d.invoice_title@ == "FATURA"@
    &&& d.from_label@ == "De:"@
    &&& d.ship_to_label@ == "Enviar para:"@
    &&& d.bill_to_label@ == "Endereço de faturação:"@
    &&& d.phone_label@ == "Telefone:"@
    &&& d.vat_label@ == "NIF:"@
    &&& d.product_header@ == "Produto"@
    &&& d.quantity_header@ == "Quantidade"@
    &&& d.unit_price_header@ == "Preço unitário"@
    &&& d.discount_header@ == "Desconto"@
    &&& d.tax_header@ == "Imposto"@
    &&& d.total_header@ == "Total"@
    &&& d.subtotal_before_discount_label@ == "Subtotal antes desconto:"@
    &&& d.discount_label@ == "Desconto:"@
    &&& d.subtotal_label@ == "Subtotal:"@
    &&& d.shipping_label@ == "Envio:"@
    &&& d.tax_label@ == "Imposto:"@
    &&& d.total_label@ == "Total:"@
    &&& d.notes_label@ == "Notas:"@
    &&& d.invoice_number_prefix@ == "Fatura #"@
    &&& d.date_label@ == "Data:"@
    &&& d.order_status_label@ == "Estado do pedido:"@
    &&& d.packing_list_title@ == "GUIA DE REMESSA"@
    &&& d.proforma_invoice_title@ == "FATURA PROFORMA"@
    &&& d.sku_header@ == "SKU"@
    &&& d.packed_header@ == "Embalado"@
    &&& d.return_address_label@ == "Endereço de retorno"@
    &&& d.shipping_method_label@ == "Método de envio:"@
    &&& d.package_info_title@ == "INFORMAÇÕES DA ENCOMENDA"@
    &&& d.package_weight_label@ == "Peso da encomenda:"@
    &&& d.package_dimensions_label@ == "Dimensões da encomenda:"@
    &&& d.carrier_label@ == "Transportadora:"@
    &&& d.tracking_number_label@ == "Número de rastreamento:"@
    &&& d.total_items_label@ == "TOTAL DE ARTIGOS:"@
    &&& d.packer_verification_title@ == "VERIFICAÇÃO DE EMBALAGEM"@
    &&& d.packed_by_label@ == "Embalado por:"@
    &&& d.signature_label@ == "Assinatura:"@
    &&& d.estimated_total_label@ == "Total estimado"@
    &&& d.proforma_notice@ == "Esta não é uma fatura - apenas para fins de estimativa"@
    &&& d.proforma_footer_notice@ == "AVISO: Esta fatura proforma é apenas uma estimativa e não uma solicitação de pagamento."@
}

/// The Thai labels, field by field.
pub open spec fn is_thai(d: Dictionary) -> bool {
    &&& d.language == Language::Thai
    &&& d.invoice_title@ == "ใบแจ้งหนี้"@
    &&& d.from_label@ == "จาก:"@
    &&& d.ship_to_label@ == "จัดส่งถึง:"@
    &&& d.bill_to_label@ == "ที่อยู่เรียกเก็บเงิน:"@
    &&& d.phone_label@ == "โทรศัพท์:"@
    &&& d.vat_label@ == "เลขภาษี:"@
    &&& d.product_header@ == "สินค้า"@
    &&& d.quantity_header@ == "จำนวน"@
    &&& d.unit_price_header@ == "ราคาต่อหน่วย"@
    &&& d.discount_header@ == "ส่วนลด"@
    &&& d.tax_header@ == "ภาษี"@
    &&& d.total_header@ == "รวม"@
    &&& d.subtotal_before_discount_label@ == "ยอดรวมก่อนหักส่วนลด:"@
    &&& d.discount_label@ == "ส่วนลด:"@
    &&& d.subtotal_label@ == "ยอดรวมย่อย:"@
    &&& d.shipping_label@ == "ค่าจัดส่ง:"@
    &&& d.tax_label@ == "ภาษี:"@
    &&& d.total_label@ == "รวมทั้งสิ้น:"@
    &&& d.notes_label@ == "หมายเหตุ:"@
    &&& d.invoice_number_prefix@ == "ใบแจ้งหนี้ #"@
    &&& d.date_label@ == "วันที่:"@
    &&& d.order_status_label@ == "สถานะคำสั่งซื้อ:"@
    &&& d.packing_list_title@ == "ใบแพ็คกิ้ง"@
    &&& d.proforma_invoice_title@ == "ใบแจ้งหนี้เบื้องต้น"@
    &&& d.sku_header@ == "SKU"@
    &&& d.packed_header@ == "บรรจุแล้ว"@
    &&& d.return_address_label@ == "ที่อยู่สำหรับส่งคืน"@
    &&& d.shipping_method_label@ == "วิธีการจัดส่ง:"@
    &&& d.package_info_title@ == "ข้อมูลพัสดุ"@
    &&& d.package_weight_label@ == "น้ำหนักพัสดุ:"@
    &&& d.package_dimensions_label@ == "ขนาดพัสดุ:"@
    &&& d.carrier_label@ == "บริษัทขนส่ง:"@
    &&& d.tracking_number_label@ == "หมายเลขติดตาม:"@
    &&& d.total_items_label@ == "จำนวนรายการทั้งหมด:"@
    &&& d.packer_verification_title@ == "การตรวจสอบการแพ็ค"@
    &&& d.packed_by_label@ == "แพ็คโดย:"@
    &&& d.signature_label@ == "ลายเซ็น:"@
    &&& d.estimated_total_label@ == "ยอดรวมโดยประมาณ"@
    &&& d.proforma_notice@ == "นี่ไม่ใช่บิล - สำหรับวัตถุประสงค์ในการประมาณการเท่านั้น"@
    &&& d.proforma_footer_notice@ == "ประกาศ: ใบแจ้งหนี้เบื้องต้นนี้เป็นเพียงการประมาณการเท่านั้น ไม่ใช่การร้องขอการชำระเงิน"@
}

/// The Italian labels, field by field.
pub open spec fn is_italian(d: Dictionary) -> bool {
    &&& d.language == Language::Italian
    &&& d.invoice_title@ == "FATTURA"@
    &&& d.from_label@ == "Da:"@
    &&& d.ship_to_label@ == "Spedire a:"@
    &&& d.bill_to_label@ == "Fatturare a:"@
    &&& d.phone_label@ == "Telefono:"@
    &&& d.vat_label@ == "Partita IVA:"@
    &&& d.product_header@ == "Prodotto"@
    &&& d.quantity_header@ == "Quantità"@
    &&& d.unit_price_header@ == "Prezzo unitario"@
    &&& d.discount_header@ == "Sconto"@
    &&& d.tax_header@ == "Tasse"@
    &&& d.total_header@ == "Totale"@
    &&& d.subtotal_before_discount_label@ == "Subtotale prima dello sconto:"@
    &&& d.discount_label@ == "Sconto:"@
    &&& d.subtotal_label@ == "Subtotale:"@
    &&& d.shipping_label@ == "Spedizione:"@
    &&& d.tax_label@ == "Tasse:"@
    &&& d.total_label@ == "Totale:"@
    &&& d.notes_label@ == "Note:"@
    &&& d.invoice_number_prefix@ == "Fattura #"@
    &&& d.date_label@ == "Data:"@
    &&& d.order_status_label@ == "Stato dell'ordine:"@
    &&& d.packing_list_title@ == "BOLLA DI CONSEGNA"@
    &&& d.proforma_invoice_title@ == "FATTURA PROFORMA"@
    &&& d.sku_header@ == "SKU"@
    &&& d.packed_header@ == "Imballato"@
    &&& d.return_address_label@ == "Indirizzo di ritorno"@
    &&& d.shipping_method_label@ == "Metodo di spedizione:"@
    &&& d.package_info_title@ == "INFORMAZIONI PACCO"@
    &&& d.package_weight_label@ == "Peso del pacco:"@
    &&& d.package_dimensions_label@ == "Dimensioni del pacco:"@
    &&& d.carrier_label@ == "Corriere:"@
    &&& d.tracking_number_label@ == "Numero di tracciamento:"@
    &&& d.total_items_label@ == "TOTALE ARTICOLI:"@
    &&& d.packer_verification_title@ == "VERIFICA IMBALLAGGIO"@
    &&& d.packed_by_label@ == "Imballato da:"@
    &&& d.signature_label@ == "Firma:"@
    &&& d.estimated_total_label@ == "Totale stimato"@
    &&& d.proforma_notice@ == "Questo non è una fattura - solo a scopo di stima"@
    &&& d.proforma_footer_notice@ == "AVVISO: Questa fattura proforma è solo una stima e non una richiesta di pagamento."@
}

/// The dictionary that `for_language` returns for each language.
pub open spec fn spec_dictionary_for(lang: Language, d: Dictionary) -> bool {
    match lang {
        Language::English => is_english(d),
        Language::German => is_german(d),
        Language::French => is_french(d),
        Language::Spanish => is_spanish(d),
        Language::Portuguese => is_portuguese(d),
        Language::Thai => is_thai(d),
        Language::Italian => is_italian(d),
    }
}

impl Default for Dictionary {
    /// The English base dictionary.
    fn default() -> (r: Self)
        ensures
            is_english(r),
            nonempty_fields(r),
    {
        let r = Dictionary {
            language: Language::English,
            invoice_title: "INVOICE".to_owned(),
            from_label: "From:".to_owned(),
            ship_to_label: "Ship To:".to_owned(),
            bill_to_label: "Bill To:".to_owned(),
            phone_label: "Phone:".to_owned(),
            vat_label: "VAT:".to_owned(),
            product_header: "Product".to_owned(),
            quantity_header: "Qty".to_owned(),
            unit_price_header: "Unit Price".to_owned(),
            discount_header: "Discount".to_owned(),
            tax_header: "Tax".to_owned(),
            total_header: "Total".to_owned(),
            subtotal_before_discount_label: "Subtotal Before Discount:".to_owned(),
            discount_label: "Discount:".to_owned(),
            subtotal_label: "Subtotal:".to_owned(),
            shipping_label: "Shipping:".to_owned(),
            tax_label: "Tax:".to_owned(),
            total_label: "Total:".to_owned(),
            notes_label: "Notes:".to_owned(),
            invoice_number_prefix: "Invoice #".to_owned(),
            date_label: "Date:".to_owned(),
            order_status_label: "Order Status:".to_owned(),
            packing_list_title: "PACKING LIST".to_owned(),
            proforma_invoice_title: "PROFORMA INVOICE".to_owned(),
            sku_header: "SKU".to_owned(),
            packed_header: "Packed".to_owned(),
            return_address_label: "Return Address".to_owned(),
            shipping_method_label: "Shipping Method:".to_owned(),
            package_info_title: "PACKAGE INFORMATION".to_owned(),
            package_weight_label: "Package Weight:".to_owned(),
            package_dimensions_label: "Package Dimensions:".to_owned(),
            carrier_label: "Carrier:".to_owned(),
            tracking_number_label: "Tracking Number:".to_owned(),
            total_items_label: "TOTAL ITEMS:".to_owned(),
            packer_verification_title: "PACKER VERIFICATION".to_owned(),
            packed_by_label: "Packed by:".to_owned(),
            signature_label: "Signature:".to_owned(),
            estimated_total_label: "Estimated Total".to_owned(),
            proforma_notice: "This is not a bill - for estimate purposes only".to_owned(),
            proforma_footer_notice: "NOTICE: This proforma invoice is an estimate only and not a request for payment.".to_owned(),
        };
        proof {
            reveal_strlit("INVOICE");
            reveal_strlit("From:");
            reveal_strlit("Ship To:");
            reveal_strlit("Bill To:");
            reveal_strlit("Phone:");
            reveal_strlit("VAT:");
            reveal_strlit("Product");
            reveal_strlit("Qty");
            reveal_strlit("Unit Price");
            reveal_strlit("Discount");
            reveal_strlit("Tax");
            reveal_strlit("Total");
            reveal_strlit("Subtotal Before Discount:");
            reveal_strlit("Discount:");
            reveal_strlit("Subtotal:");
            reveal_strlit("Shipping:");
            reveal_strlit("Tax:");
            reveal_strlit("Total:");
            reveal_strlit("Notes:");
            reveal_strlit("Invoice #");
            reveal_strlit("Date:");
            reveal_strlit("Order Status:");
            reveal_strlit("PACKING LIST");
            reveal_strlit("PROFORMA INVOICE");
            reveal_strlit("SKU");
            reveal_strlit("Packed");
            reveal_strlit("Return Address");
            reveal_strlit("Shipping Method:");
            reveal_strlit("PACKAGE INFORMATION");
            reveal_strlit("Package Weight:");
            reveal_strlit("Package Dimensions:");
            reveal_strlit("Carrier:");
            reveal_strlit("Tracking Number:");
            reveal_strlit("TOTAL ITEMS:");
            reveal_strlit("PACKER VERIFICATION");
            reveal_strlit("Packed by:");
            reveal_strlit("Signature:");
            reveal_strlit("Estimated Total");
            reveal_strlit("This is not a bill - for estimate purposes only");
            reveal_strlit("NOTICE: This proforma invoice is an estimate only and not a request for payment.");
        }
        r
    }
}

impl Dictionary {
    /// The German dictionary: every field of the base overridden.
    pub fn to_de(self) -> (r: Self)
        ensures
            is_german(r),
            nonempty_fields(r),
    {
        let r = Dictionary {
            language: Language::German,
            invoice_title: "RECHNUNG".to_owned(),
            from_label: "Von:".to_owned(),
            ship_to_label: "Versand an:".to_owned(),
            bill_to_label: "Rechnungsadresse:".to_owned(),
            phone_label: "Telefon:".to_owned(),
            vat_label: "USt-IdNr.:".to_owned(),
            product_header: "Produkt".to_owned(),
            quantity_header: "Menge".to_owned(),
            unit_price_header: "Preis".to_owned(),
            discount_header: "Rabatt".to_owned(),
            tax_header: "Steuer".to_owned(),
            total_header: "Gesamt".to_owned(),
            subtotal_before_discount_label: "Zwischensumme vor Rabatt:".to_owned(),
            discount_label: "Rabatt:".to_owned(),
            subtotal_label: "Zwischensumme:".to_owned(),
            shipping_label: "Versand:".to_owned(),
            tax_label: "Steuer:".to_owned(),
            total_label: "Gesamt:".to_owned(),
            notes_label: "Notizen:".to_owned(),
            invoice_number_prefix: "Rechnung #".to_owned(),
            date_label: "Datum:".to_owned(),
            order_status_label: "Bestellstatus:".to_owned(),
            packing_list_title: "PACKLISTE".to_owned(),
            proforma_invoice_title: "PROFORMA RECHNUNG".to_owned(),
            sku_header: "SKU".to_owned(),
            packed_header: "Verpackt".to_owned(),
            return_address_label: "Rücksendeadresse".to_owned(),
            shipping_method_label: "Versandart:".to_owned(),
            package_info_title: "PAKETINFORMATIONEN".to_owned(),
            package_weight_label: "Paketgewicht:".to_owned(),
            package_dimensions_label: "Paketabmessungen:".to_owned(),
            carrier_label: "Spediteur:".to_owned(),
            tracking_number_label: "Sendungsverfolgung:".to_owned(),
            total_items_label: "ARTIKEL GESAMT:".to_owned(),
            packer_verification_title: "VERPACKUNGSBESTÄTIGUNG".to_owned(),
            packed_by_label: "Verpackt von:".to_owned(),
            signature_label: "Unterschrift:".to_owned(),
            estimated_total_label: "Geschätzte Summe".to_owned(),
            proforma_notice: "Dies ist keine Rechnung - nur zur Schätzung".to_owned(),
            proforma_footer_notice: "HINWEIS: Diese Proforma-Rechnung ist nur eine Schätzung und keine Zahlungsaufforderung.".to_owned(),
        };
        proof {
            reveal_strlit("RECHNUNG");
            reveal_strlit("Von:");
            reveal_strlit("Versand an:");
            reveal_strlit("Rechnungsadresse:");
            reveal_strlit("Telefon:");
            reveal_strlit("USt-IdNr.:");
            reveal_strlit("Produkt");
            reveal_strlit("Menge");
            reveal_strlit("Preis");
            reveal_strlit("Rabatt");
            reveal_strlit("Steuer");
            reveal_strlit("Gesamt");
            reveal_strlit("Zwischensumme vor Rabatt:");
            reveal_strlit("Rabatt:");
            reveal_strlit("Zwischensumme:");
            reveal_strlit("Versand:");
            reveal_strlit("Steuer:");
            reveal_strlit("Gesamt:");
            reveal_strlit("Notizen:");
            reveal_strlit("Rechnung #");
            reveal_strlit("Datum:");
            reveal_strlit("Bestellstatus:");
            reveal_strlit("PACKLISTE");
            reveal_strlit("PROFORMA RECHNUNG");
            reveal_strlit("SKU");
            reveal_strlit("Verpackt");
            reveal_strlit("Rücksendeadresse");
            reveal_strlit("Versandart:");
            reveal_strlit("PAKETINFORMATIONEN");
            reveal_strlit("Paketgewicht:");
            reveal_strlit("Paketabmessungen:");
            reveal_strlit("Spediteur:");
            reveal_strlit("Sendungsverfolgung:");
            reveal_strlit("ARTIKEL GESAMT:");
            reveal_strlit("VERPACKUNGSBESTÄTIGUNG");
            reveal_strlit("Verpackt von:");
            reveal_strlit("Unterschrift:");
            reveal_strlit("Geschätzte Summe");
            reveal_strlit("Dies ist keine Rechnung - nur zur Schätzung");
            reveal_strlit("HINWEIS: Diese Proforma-Rechnung ist nur eine Schätzung und keine Zahlungsaufforderung.");
        }
        r
    }

    /// The French dictionary: every field of the base overridden.
    pub fn to_fr(self) -> (r: Self)
        ensures
            is_french(r),
            nonempty_fields(r),
    {
        let r = Dictionary {
            language: Language::French,
            invoice_title: "FACTURE".to_owned(),
            from_label: "De".to_owned(),
            ship_to_label: "Expédition à:".to_owned(),
            bill_to_label: "Adresse de facturation:".to_owned(),
            phone_label: "Téléphone:".to_owned(),
            vat_label: "Numéro de TVA:".to_owned(),
            product_header: "Produit".to_owned(),
            quantity_header: "Quantité".to_owned(),
            unit_price_header: "Prix unitaire".to_owned(),
            discount_header: "Remise".to_owned(),
            tax_header: "Taxe".to_owned(),
            total_header: "Total".to_owned(),
            subtotal_before_discount_label: "Sous-total avant remise:".to_owned(),
            discount_label: "Remise:".to_owned(),
            subtotal_label: "Sous-total:".to_owned(),
            shipping_label: "Expédition:".to_owned(),
            tax_label: "Taxe:".to_owned(),
            total_label: "Total:".to_owned(),
            notes_label: "Remarques:".to_owned(),
            invoice_number_prefix: "Facture #".to_owned(),
            date_label: "Date:".to_owned(),
            order_status_label: "Statut de la commande:".to_owned(),
            packing_list_title: "BON DE LIVRAISON".to_owned(),
            proforma_invoice_title: "FACTURE PROFORMA".to_owned(),
            sku_header: "SKU".to_owned(),
            packed_header: "Emballé".to_owned(),
            return_address_label: "Adresse de retour".to_owned(),
            shipping_method_label: "Méthode d'expédition:".to_owned(),
            package_info_title: "INFORMATIONS COLIS".to_owned(),
            package_weight_label: "Poids du colis:".to_owned(),
            package_dimensions_label: "Dimensions du colis:".to_owned(),
            carrier_label: "Transporteur:".to_owned(),
            tracking_number_label: "Numéro de suivi:".to_owned(),
            total_items_label: "TOTAL ARTICLES:".to_owned(),
            packer_verification_title: "VÉRIFICATION EMBALLAGE".to_owned(),
            packed_by_label: "Emballé par:".to_owned(),
            signature_label: "Signature:".to_owned(),
            estimated_total_label: "Total estimé".to_owned(),
            proforma_notice: "Ceci n'est pas une facture - à des fins d'estimation uniquement".to_owned(),
            proforma_footer_notice: "AVIS: Cette facture proforma est seulement une estimation et non une demande de paiement.".to_owned(),
        };
        proof {
            reveal_strlit("FACTURE");
            reveal_strlit("De");
            reveal_strlit("Expédition à:");
            reveal_strlit("Adresse de facturation:");
            reveal_strlit("Téléphone:");
            reveal_strlit("Numéro de TVA:");
            reveal_strlit("Produit");
            reveal_strlit("Quantité");
            reveal_strlit("Prix unitaire");
            reveal_strlit("Remise");
            reveal_strlit("Taxe");
            reveal_strlit("Total");
            reveal_strlit("Sous-total avant remise:");
            reveal_strlit("Remise:");
            reveal_strlit("Sous-total:");
            reveal_strlit("Expédition:");
            reveal_strlit("Taxe:");
            reveal_strlit("Total:");
            reveal_strlit("Remarques:");
            reveal_strlit("Facture #");
            reveal_strlit("Date:");
            reveal_strlit("Statut de la commande:");
            reveal_strlit("BON DE LIVRAISON");
            reveal_strlit("FACTURE PROFORMA");
            reveal_strlit("SKU");
            reveal_strlit("Emballé");
            reveal_strlit("Adresse de retour");
            reveal_strlit("Méthode d'expédition:");
            reveal_strlit("INFORMATIONS COLIS");
            reveal_strlit("Poids du colis:");
            reveal_strlit("Dimensions du colis:");
            reveal_strlit("Transporteur:");
            reveal_strlit("Numéro de suivi:");
            reveal_strlit("TOTAL ARTICLES:");
            reveal_strlit("VÉRIFICATION EMBALLAGE");
            reveal_strlit("Emballé par:");
            reveal_strlit("Signature:");
            reveal_strlit("Total estimé");
            reveal_strlit("Ceci n'est pas une facture - à des fins d'estimation uniquement");
            reveal_strlit("AVIS: Cette facture proforma est seulement une estimation et non une demande de paiement.");
        }
        r
    }

    /// The Spanish dictionary: every field of the base overridden.
    pub fn to_es(self) -> (r: Self)
        ensures
            is_spanish(r),
            nonempty_fields(r),
    {
        let r = Dictionary {
            language: Language::Spanish,
            invoice_title: "FACTURA".to_owned(),
            from_label: "De:".to_owned(),
            ship_to_label: "Enviar a:".to_owned(),
            bill_to_label: "Dirección de facturación:".to_owned(),
            phone_label: "Teléfono:".to_owned(),
            vat_label: "NIF/CIF:".to_owned(),
            product_header: "Producto".to_owned(),
            quantity_header: "Cantidad".to_owned(),
            unit_price_header: "Precio unitario".to_owned(),
            discount_header: "Descuento".to_owned(),
            tax_header: "Impuestos".to_owned(),
            total_header: "Total".to_owned(),
            subtotal_before_discount_label: "Subtotal antes descuento:".to_owned(),
            discount_label: "Descuento:".to_owned(),
            subtotal_label: "Subtotal:".to_owned(),
            shipping_label: "Envío:".to_owned(),
            tax_label: "Impuestos:".to_owned(),
            total_label: "Total:".to_owned(),
            notes_label: "Notas:".to_owned(),
            invoice_number_prefix: "Factura #".to_owned(),
            date_label: "Fecha:".to_owned(),
            order_status_label: "Estado del pedido:".to_owned(),
            packing_list_title: "ALBARÁN DE ENTREGA".to_owned(),
            proforma_invoice_title: "FACTURA PROFORMA".to_owned(),
            sku_header: "SKU".to_owned(),
            packed_header: "Empaquetado".to_owned(),
            return_address_label: "Dirección de devolución".to_owned(),
            shipping_method_label: "Método de envío:".to_owned(),
            package_info_title: "INFORMACIÓN DEL PAQUETE".to_owned(),
            package_weight_label: "Peso del paquete:".to_owned(),
            package_dimensions_label: "Dimensiones del paquete:".to_owned(),
            carrier_label: "Transportista:".to_owned(),
            tracking_number_label: "Número de seguimiento:".to_owned(),
            total_items_label: "TOTAL ARTÍCULOS:".to_owned(),
            packer_verification_title: "VERIFICACIÓN DE EMPAQUETADO".to_owned(),
            packed_by_label: "Empaquetado por:".to_owned(),
            signature_label: "Firma:".to_owned(),
            estimated_total_label: "Total estimado".to_owned(),
            proforma_notice: "Esto no es una factura - solo para fines de estimación".to_owned(),
            proforma_footer_notice: "AVISO: Esta factura proforma es solo una estimación y no una solicitud de pago.".to_owned(),
        };
        proof {
            reveal_strlit("FACTURA");
            reveal_strlit("De:");
            reveal_strlit("Enviar a:");
            reveal_strlit("Dirección de facturación:");
            reveal_strlit("Teléfono:");
            reveal_strlit("NIF/CIF:");
            reveal_strlit("Producto");
            reveal_strlit("Cantidad");
            reveal_strlit("Precio unitario");
            reveal_strlit("Descuento");
            reveal_strlit("Impuestos");
            reveal_strlit("Total");
            reveal_strlit("Subtotal antes descuento:");
            reveal_strlit("Descuento:");
            reveal_strlit("Subtotal:");
            reveal_strlit("Envío:");
            reveal_strlit("Impuestos:");
            reveal_strlit("Total:");
            reveal_strlit("Notas:");
            reveal_strlit("Factura #");
            reveal_strlit("Fecha:");
            reveal_strlit("Estado del pedido:");
            reveal_strlit("ALBARÁN DE ENTREGA");
            reveal_strlit("FACTURA PROFORMA");
            reveal_strlit("SKU");
            reveal_strlit("Empaquetado");
            reveal_strlit("Dirección de devolución");
            reveal_strlit("Método de envío:");
            reveal_strlit("INFORMACIÓN DEL PAQUETE");
            reveal_strlit("Peso del paquete:");
            reveal_strlit("Dimensiones del paquete:");
            reveal_strlit("Transportista:");
            reveal_strlit("Número de seguimiento:");
            reveal_strlit("TOTAL ARTÍCULOS:");
            reveal_strlit("VERIFICACIÓN DE EMPAQUETADO");
            reveal_strlit("Empaquetado por:");
            reveal_strlit("Firma:");
            reveal_strlit("Total estimado");
            reveal_strlit("Esto no es una factura - solo para fines de estimación");
            reveal_strlit("AVISO: Esta factura proforma es solo una estimación y no una solicitud de pago.");
        }
        r
    }

    /// The Portuguese dictionary: every field of the base overridden.
    pub fn to_pt(self) -> (r: Self)
        ensures
            is_portuguese(r),
            nonempty_fields(r),
    {
        let r = Dictionary {
            language: Language::Portuguese,
            invoice_title: "FATURA".to_owned(),
            from_label: "De:".to_owned(),
            ship_to_label: "Enviar para:".to_owned(),
            bill_to_label: "Endereço de faturação:".to_owned(),
            phone_label: "Telefone:".to_owned(),
            vat_label: "NIF:".to_owned(),
            product_header: "Produto".to_owned(),
            quantity_header: "Quantidade".to_owned(),
            unit_price_header: "Preço unitário".to_owned(),
            discount_header: "Desconto".to_owned(),
            tax_header: "Imposto".to_owned(),
            total_header: "Total".to_owned(),
            subtotal_before_discount_label: "Subtotal antes desconto:".to_owned(),
            discount_label: "Desconto:".to_owned(),
            subtotal_label: "Subtotal:".to_owned(),
            shipping_label: "Envio:".to_owned(),
            tax_label: "Imposto:".to_owned(),
            total_label: "Total:".to_owned(),
            notes_label: "Notas:".to_owned(),
            invoice_number_prefix: "Fatura #".to_owned(),
            date_label: "Data:".to_owned(),
            order_status_label: "Estado do pedido:".to_owned(),
            packing_list_title: "GUIA DE REMESSA".to_owned(),
            proforma_invoice_title: "FATURA PROFORMA".to_owned(),
            sku_header: "SKU".to_owned(),
            packed_header: "Embalado".to_owned(),
            return_address_label: "Endereço de retorno".to_owned(),
            shipping_method_label: "Método de envio:".to_owned(),
            package_info_title: "INFORMAÇÕES DA ENCOMENDA".to_owned(),
            package_weight_label: "Peso da encomenda:".to_owned(),
            package_dimensions_label: "Dimensões da encomenda:".to_owned(),
            carrier_label: "Transportadora:".to_owned(),
            tracking_number_label: "Número de rastreamento:".to_owned(),
            total_items_label: "TOTAL DE ARTIGOS:".to_owned(),
            packer_verification_title: "VERIFICAÇÃO DE EMBALAGEM".to_owned(),
            packed_by_label: "Embalado por:".to_owned(),
            signature_label: "Assinatura:".to_owned(),
            estimated_total_label: "Total estimado".to_owned(),
            proforma_notice: "Esta não é uma fatura - apenas para fins de estimativa".to_owned(),
            proforma_footer_notice: "AVISO: Esta fatura proforma é apenas uma estimativa e não uma solicitação de pagamento.".to_owned(),
        };
        proof {
            reveal_strlit("FATURA");
            reveal_strlit("De:");
            reveal_strlit("Enviar para:");
            reveal_strlit("Endereço de faturação:");
            reveal_strlit("Telefone:");
            reveal_strlit("NIF:");
            reveal_strlit("Produto");
            reveal_strlit("Quantidade");
            reveal_strlit("Preço unitário");
            reveal_strlit("Desconto");
            reveal_strlit("Imposto");
            reveal_strlit("Total");
            reveal_strlit("Subtotal antes desconto:");
            reveal_strlit("Desconto:");
            reveal_strlit("Subtotal:");
            reveal_strlit("Envio:");
            reveal_strlit("Imposto:");
            reveal_strlit("Total:");
            reveal_strlit("Notas:");
            reveal_strlit("Fatura #");
            reveal_strlit("Data:");
            reveal_strlit("Estado do pedido:");
            reveal_strlit("GUIA DE REMESSA");
            reveal_strlit("FATURA PROFORMA");
            reveal_strlit("SKU");
            reveal_strlit("Embalado");
            reveal_strlit("Endereço de retorno");
            reveal_strlit("Método de envio:");
            reveal_strlit("INFORMAÇÕES DA ENCOMENDA");
            reveal_strlit("Peso da encomenda:");
            reveal_strlit("Dimensões da encomenda:");
            reveal_strlit("Transportadora:");
            reveal_strlit("Número de rastreamento:");
            reveal_strlit("TOTAL DE ARTIGOS:");
            reveal_strlit("VERIFICAÇÃO DE EMBALAGEM");
            reveal_strlit("Embalado por:");
            reveal_strlit("Assinatura:");
            reveal_strlit("Total estimado");
            reveal_strlit("Esta não é uma fatura - apenas para fins de estimativa");
            reveal_strlit("AVISO: Esta fatura proforma é apenas uma estimativa e não uma solicitação de pagamento.");
        }
        r
    }

    /// The Thai dictionary: every field of the base overridden.
    pub fn to_th(self) -> (r: Self)
        ensures
            is_thai(r),
            nonempty_fields(r),
    {
        let r = Dictionary {
            language: Language::Thai,
            invoice_title: "ใบแจ้งหนี้".to_owned(),
            from_label: "จาก:".to_owned(),
            ship_to_label: "จัดส่งถึง:".to_owned(),
            bill_to_label: "ที่อยู่เรียกเก็บเงิน:".to_owned(),
            phone_label: "โทรศัพท์:".to_owned(),
            vat_label: "เลขภาษี:".to_owned(),
            product_header: "สินค้า".to_owned(),
            quantity_header: "จำนวน".to_owned(),
            unit_price_header: "ราคาต่อหน่วย".to_owned(),
            discount_header: "ส่วนลด".to_owned(),
            tax_header: "ภาษี".to_owned(),
            total_header: "รวม".to_owned(),
            subtotal_before_discount_label: "ยอดรวมก่อนหักส่วนลด:".to_owned(),
            discount_label: "ส่วนลด:".to_owned(),
            subtotal_label: "ยอดรวมย่อย:".to_owned(),
            shipping_label: "ค่าจัดส่ง:".to_owned(),
            tax_label: "ภาษี:".to_owned(),
            total_label: "รวมทั้งสิ้น:".to_owned(),
            notes_label: "หมายเหตุ:".to_owned(),
            invoice_number_prefix: "ใบแจ้งหนี้ #".to_owned(),
            date_label: "วันที่:".to_owned(),
            order_status_label: "สถานะคำสั่งซื้อ:".to_owned(),
            packing_list_title: "ใบแพ็คกิ้ง".to_owned(),
            proforma_invoice_title: "ใบแจ้งหนี้เบื้องต้น".to_owned(),
            sku_header: "SKU".to_owned(),
            packed_header: "บรรจุแล้ว".to_owned(),
            return_address_label: "ที่อยู่สำหรับส่งคืน".to_owned(),
            shipping_method_label: "วิธีการจัดส่ง:".to_owned(),
            package_info_title: "ข้อมูลพัสดุ".to_owned(),
            package_weight_label: "น้ำหนักพัสดุ:".to_owned(),
            package_dimensions_label: "ขนาดพัสดุ:".to_owned(),
            carrier_label: "บริษัทขนส่ง:".to_owned(),
            tracking_number_label: "หมายเลขติดตาม:".to_owned(),
            total_items_label: "จำนวนรายการทั้งหมด:".to_owned(),
            packer_verification_title: "การตรวจสอบการแพ็ค".to_owned(),
            packed_by_label: "แพ็คโดย:".to_owned(),
            signature_label: "ลายเซ็น:".to_owned(),
            estimated_total_label: "ยอดรวมโดยประมาณ".to_owned(),
            proforma_notice: "นี่ไม่ใช่บิล - สำหรับวัตถุประสงค์ในการประมาณการเท่านั้น".to_owned(),
            proforma_footer_notice: "ประกาศ: ใบแจ้งหนี้เบื้องต้นนี้เป็นเพียงการประมาณการเท่านั้น ไม่ใช่การร้องขอการชำระเงิน".to_owned(),
        };
        proof {
            reveal_strlit("ใบแจ้งหนี้");
            reveal_strlit("จาก:");
            reveal_strlit("จัดส่งถึง:");
            reveal_strlit("ที่อยู่เรียกเก็บเงิน:");
            reveal_strlit("โทรศัพท์:");
            reveal_strlit("เลขภาษี:");
            reveal_strlit("สินค้า");
            reveal_strlit("จำนวน");
            reveal_strlit("ราคาต่อหน่วย");
            reveal_strlit("ส่วนลด");
            reveal_strlit("ภาษี");
            reveal_strlit("รวม");
            reveal_strlit("ยอดรวมก่อนหักส่วนลด:");
            reveal_strlit("ส่วนลด:");
            reveal_strlit("ยอดรวมย่อย:");
            reveal_strlit("ค่าจัดส่ง:");
            reveal_strlit("ภาษี:");
            reveal_strlit("รวมทั้งสิ้น:");
            reveal_strlit("หมายเหตุ:");
            reveal_strlit("ใบแจ้งหนี้ #");
            reveal_strlit("วันที่:");
            reveal_strlit("สถานะคำสั่งซื้อ:");
            reveal_strlit("ใบแพ็คกิ้ง");
            reveal_strlit("ใบแจ้งหนี้เบื้องต้น");
            reveal_strlit("SKU");
            reveal_strlit("บรรจุแล้ว");
            reveal_strlit("ที่อยู่สำหรับส่งคืน");
            reveal_strlit("วิธีการจัดส่ง:");
            reveal_strlit("ข้อมูลพัสดุ");
            reveal_strlit("น้ำหนักพัสดุ:");
            reveal_strlit("ขนาดพัสดุ:");
            reveal_strlit("บริษัทขนส่ง:");
            reveal_strlit("หมายเลขติดตาม:");
            reveal_strlit("จำนวนรายการทั้งหมด:");
            reveal_strlit("การตรวจสอบการแพ็ค");
            reveal_strlit("แพ็คโดย:");
            reveal_strlit("ลายเซ็น:");
            reveal_strlit("ยอดรวมโดยประมาณ");
            reveal_strlit("นี่ไม่ใช่บิล - สำหรับวัตถุประสงค์ในการประมาณการเท่านั้น");
            reveal_strlit("ประกาศ: ใบแจ้งหนี้เบื้องต้นนี้เป็นเพียงการประมาณการเท่านั้น ไม่ใช่การร้องขอการชำระเงิน");
        }
        r
    }

    /// The Italian dictionary: every field of the base overridden.
    pub fn to_it(self) -> (r: Self)
        ensures
            is_italian(r),
            nonempty_fields(r),
    {
        let r = Dictionary {
            language: Language::Italian,
            invoice_title: "FATTURA".to_owned(),
            from_label: "Da:".to_owned(),
            ship_to_label: "Spedire a:".to_owned(),
            bill_to_label: "Fatturare a:".to_owned(),
            phone_label: "Telefono:".to_owned(),
            vat_label: "Partita IVA:".to_owned(),
            product_header: "Prodotto".to_owned(),
            quantity_header: "Quantità".to_owned(),
            unit_price_header: "Prezzo unitario".to_owned(),
            discount_header: "Sconto".to_owned(),
            tax_header: "Tasse".to_owned(),
            total_header: "Totale".to_owned(),
            subtotal_before_discount_label: "Subtotale prima dello sconto:".to_owned(),
            discount_label: "Sconto:".to_owned(),
            subtotal_label: "Subtotale:".to_owned(),
            shipping_label: "Spedizione:".to_owned(),
            tax_label: "Tasse:".to_owned(),
            total_label: "Totale:".to_owned(),
            notes_label: "Note:".to_owned(),
            invoice_number_prefix: "Fattura #".to_owned(),
            date_label: "Data:".to_owned(),
            order_status_label: "Stato dell'ordine:".to_owned(),
            packing_list_title: "BOLLA DI CONSEGNA".to_owned(),
            proforma_invoice_title: "FATTURA PROFORMA".to_owned(),
            sku_header: "SKU".to_owned(),
            packed_header: "Imballato".to_owned(),
            return_address_label: "Indirizzo di ritorno".to_owned(),
            shipping_method_label: "Metodo di spedizione:".to_owned(),
            package_info_title: "INFORMAZIONI PACCO".to_owned(),
            package_weight_label: "Peso del pacco:".to_owned(),
            package_dimensions_label: "Dimensioni del pacco:".to_owned(),
            carrier_label: "Corriere:".to_owned(),
            tracking_number_label: "Numero di tracciamento:".to_owned(),
            total_items_label: "TOTALE ARTICOLI:".to_owned(),
            packer_verification_title: "VERIFICA IMBALLAGGIO".to_owned(),
            packed_by_label: "Imballato da:".to_owned(),
            signature_label: "Firma:".to_owned(),
            estimated_total_label: "Totale stimato".to_owned(),
            proforma_notice: "Questo non è una fattura - solo a scopo di stima".to_owned(),
            proforma_footer_notice: "AVVISO: Questa fattura proforma è solo una stima e non una richiesta di pagamento.".to_owned(),
        };
        proof {
            reveal_strlit("FATTURA");
            reveal_strlit("Da:");
            reveal_strlit("Spedire a:");
            reveal_strlit("Fatturare a:");
            reveal_strlit("Telefono:");
            reveal_strlit("Partita IVA:");
            reveal_strlit("Prodotto");
            reveal_strlit("Quantità");
            reveal_strlit("Prezzo unitario");
            reveal_strlit("Sconto");
            reveal_strlit("Tasse");
            reveal_strlit("Totale");
            reveal_strlit("Subtotale prima dello sconto:");
            reveal_strlit("Sconto:");
            reveal_strlit("Subtotale:");
            reveal_strlit("Spedizione:");
            reveal_strlit("Tasse:");
            reveal_strlit("Totale:");
            reveal_strlit("Note:");
            reveal_strlit("Fattura #");
            reveal_strlit("Data:");
            reveal_strlit("Stato dell'ordine:");
            reveal_strlit("BOLLA DI CONSEGNA");
            reveal_strlit("FATTURA PROFORMA");
            reveal_strlit("SKU");
            reveal_strlit("Imballato");
            reveal_strlit("Indirizzo di ritorno");
            reveal_strlit("Metodo di spedizione:");
            reveal_strlit("INFORMAZIONI PACCO");
            reveal_strlit("Peso del pacco:");
            reveal_strlit("Dimensioni del pacco:");
            reveal_strlit("Corriere:");
            reveal_strlit("Numero di tracciamento:");
            reveal_strlit("TOTALE ARTICOLI:");
            reveal_strlit("VERIFICA IMBALLAGGIO");
            reveal_strlit("Imballato da:");
            reveal_strlit("Firma:");
            reveal_strlit("Totale stimato");
            reveal_strlit("Questo non è una fattura - solo a scopo di stima");
            reveal_strlit("AVVISO: Questa fattura proforma è solo una stima e non una richiesta di pagamento.");
        }
        r
    }

    /// Builds the complete label set for one language.  Every field of the
    /// result is non-empty, whichever language is selected.
    pub fn for_language(language: Language) -> (r: Self)
        ensures
            spec_dictionary_for(language, r),
            nonempty_fields(r),
    {
        let base = Dictionary::default();
        match language {
            Language::English => base,
            Language::German => base.to_de(),
            Language::French => base.to_fr(),
            Language::Spanish => base.to_es(),
            Language::Portuguese => base.to_pt(),
            Language::Thai => base.to_th(),
            Language::Italian => base.to_it(),
        }
    }
}

} // verus!

//! Domain data the documents are generated from: addresses, orders, line
//! items, exact fixed-point money amounts and timezone-free timestamps.
use vstd::prelude::*;

verus! {

/// An exact fixed-point monetary amount, counted in hundredths of the
/// currency unit.  Amounts are display data here: the layout engine never
/// recomputes totals, the caller is the source of truth for arithmetic.
#[derive(Debug, Clone, Copy, PartialEq, Eq, Structural)]
pub struct Money {
    pub cents: i64,
}

/// A calendar date with a time of day and no timezone.
#[derive(Debug, Clone, Copy, PartialEq, Eq, Structural)]
pub struct DateTime {
    pub year: u16,
    pub month: u8,
    pub day: u8,
    pub hour: u8,
    pub minute: u8,
    pub second: u8,
}

/// A postal address.  No validation is performed; empty optional fields
/// are simply omitted from layout.
#[derive(Clone)]
pub struct Address {
    pub recipient_name: Option<String>,
    pub street: String,
    pub street2: Option<String>,
    pub city: String,
    pub state: String,
    pub country: String,
    pub zip: String,
    pub phone: Option<String>,
    pub vat_number: Option<String>,
    pub company_name: Option<String>,
}

/// An order: addresses, free-form currency and status strings, rollup
/// amounts and timestamps.  The expected (unenforced) invariants are
/// `total == subtotal + shipping_total + tax_total` and
/// `subtotal == subtotal_before_discount - discount_total`.
#[derive(Clone)]
pub struct Order {
    pub id: String,
    pub shipping_address: Address,
    pub billing_address: Address,
    pub currency: String,
    pub status: String,
    pub shipping_method: String,
    pub shipping_total: Money,
    pub subtotal_before_discount: Money,
    pub discount_total: Money,
    pub subtotal: Money,
    pub tax_total: Money,
    pub total: Money,
    pub notes: Option<String>,
    pub created_at: DateTime,
    pub updated_at: DateTime,
}

/// One line of an order: quantity and the per-line monetary rollups.
#[derive(Clone)]
pub struct OrderLineItem {
    pub id: String,
    pub title: String,
    pub sku: Option<String>,
    pub quantity: i64,
    pub unit_price: Money,
    pub unit_tax: Money,
    pub unit_discount: Money,
    pub subtotal_before_discount: Money,
    pub discount_total: Money,
    pub subtotal: Money,
    pub tax_total: Money,
    pub total: Money,
}

} // verus!

//! Verified layout core for commercial shipping and billing documents.
//!
//! The library renders invoices, proforma invoices and packing lists as
//! paginated PDF byte streams from structured order data.  The layout
//! engine — label translation, script segmentation, cursor-based vertical
//! placement and numeric formatting — is verified; the PDF container
//! serialization, raster decoding and Unicode script tables are supplied
//! by outside crates behind trusted declarations.
pub mod dictionary;
pub mod errors;
pub mod fonts;
pub mod ops;
pub mod invoice;
pub mod items;
pub mod language;
pub mod logo;
pub mod layout;
pub mod packing_list;
pub mod proforma_invoice;
pub mod properties;
pub mod script;
pub mod textfmt;
pub mod types;
pub mod writer;

//! The error taxonomy of document generation.  Any failure aborts the
//! whole generation call with no output; there is no partial-success mode.
use vstd::prelude::*;

verus! {

/// Why a generation call failed.
#[derive(Debug, Clone)]
pub enum PdfError {
    /// Logo bytes are neither valid SVG nor a supported raster format, or
    /// rasterizing or re-encoding them failed.  Carries the underlying
    /// decoder's message.
    ImageDecode(String),
    /// The document writer failed to serialize the page.  Carries the
    /// writer's message.
    DocumentWrite(String),
}

impl PdfError {
    /// A short, stable tag naming the error kind.
    pub fn kind(&self) -> (r: &'static str)
        ensures
            r@ == match self {
                PdfError::ImageDecode(_) => "image-decode"@,
                PdfError::DocumentWrite(_) => "document-write"@,
            },
    {
        match self {
            PdfError::ImageDecode(_) => "image-decode",
            PdfError::DocumentWrite(_) => "document-write",
        }
    }

    /// The underlying message.
    pub fn message(&self) -> (r: &str)
        ensures
            r@ == match self {
                PdfError::ImageDecode(m) => m@,
                PdfError::DocumentWrite(m) => m@,
            },
    {
        match self {
            PdfError::ImageDecode(m) => m.as_str(),
            PdfError::DocumentWrite(m) => m.as_str(),
        }
    }
}

} // verus!

//! Visual and typographic configuration.  Optional input properties are
//! resolved once per document-generation call into a fully defaulted form.
use vstd::prelude::*;

verus! {

/// A color as three channel intensities in hundredths: 90 stands for a
/// channel value of 0.90.
#[derive(Debug, Clone, Copy, PartialEq, Eq, Structural)]
pub struct Rgb {
    pub r: u8,
    pub g: u8,
    pub b: u8,
}

/// Caller-supplied visual options; every field is optional.  Color
/// channels are hundredths of full intensity (90 stands for 0.90) and
/// font sizes are in points.
#[derive(Clone)]
pub struct DocumentProperties {
    pub font_normal: Option<String>,
    pub font_bold: Option<String>,
    pub background_color: Option<Rgb>,
    pub font_size_title: Option<u32>,
    pub font_size_body: Option<u32>,
    pub font_size_label: Option<u32>,
}

/// The resolved form: every option replaced by its value or the documented
/// default — Helvetica and Helvetica-Bold faces, a light gray background
/// of 0.90 per channel, a 20 point title and 10 point body and labels.
#[derive(Clone)]
pub struct DocumentPropertiesDefault {
    pub font_normal: String,
    pub font_bold: String,
    pub background_color: Rgb,
    pub font_size_title: u32,
    pub font_size_body: u32,
    pub font_size_label: u32,
}

/// Exactly how a resolved value relates to its input: each field is the
/// supplied value where one was given, else the documented default.
pub open spec fn spec_resolved(p: DocumentProperties, r: DocumentPropertiesDefault) -> bool {
    &&& r.font_normal@ == match p.font_normal {
        Some(s) => s@,
        None => "Helvetica"@,
    }
    &&& r.font_bold@ == match p.font_bold {
        Some(s) => s@,
        None => "Helvetica-Bold"@,
    }
    &&& r.background_color == match p.background_color {
        Some(c) => c,
        None => Rgb { r: 90, g: 90, b: 90 },
    }
    &&& r.font_size_title == match p.font_size_title {
        Some(v) => v,
        None => 20u32,
    }
    &&& r.font_size_body == match p.font_size_body {
        Some(v) => v,
        None => 10u32,
    }
    &&& r.font_size_label == match p.font_size_label {
        Some(v) => v,
        None => 10u32,
    }
}

impl DocumentProperties {
    /// Resolves the optional properties: every `None` becomes its
    /// documented literal default, every given value is kept unchanged.
    pub fn input_or_default(self) -> (r: DocumentPropertiesDefault)
        ensures
            spec_resolved(self, r),
    {
        DocumentPropertiesDefault {
            font_normal: match self.font_normal {
                Some(s) => s,
                None => "Helvetica".to_owned(),
            },
            font_bold: match self.font_bold {
                Some(s) => s,
                None => "Helvetica-Bold".to_owned(),
            },
            background_color: match self.background_color {
                Some(c) => c,
                None => Rgb { r: 90, g: 90, b: 90 },
            },
            font_size_title: match self.font_size_title {
                Some(v) => v,
                None => 20u32,
            },
            font_size_body: match self.font_size_body {
                Some(v) => v,
                None => 10u32,
            },
            font_size_label: match self.font_size_label {
                Some(v) => v,
                None => 10u32,
            },
        }
    }
}

} // verus!

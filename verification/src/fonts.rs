//! Font resolution: one font family pairing per document-generation call.
//! Thai documents get a Thai-optimized primary pair plus a Latin-coverage
//! fallback pair for mixed text; every other language gets the supplied
//! custom pair or the default pair, with no fallback.
use vstd::prelude::*;
use crate::language::Language;

verus! {

/// The resolved set of font faces for one document: primary normal and
/// bold faces, plus fallback faces populated only for Thai.
pub struct FontBundle {
    pub normal: String,
    pub bold: String,
    pub normal_fallback: Option<String>,
    pub bold_fallback: Option<String>,
}

/// Whether the bundle carries a fallback face for normal text.
pub open spec fn spec_nfb(fonts: FontBundle) -> bool {
    fonts.normal_fallback is Some
}

/// Whether the bundle carries a fallback face for bold text.
pub open spec fn spec_bfb(fonts: FontBundle) -> bool {
    fonts.bold_fallback is Some
}

/// Resolves the font bundle for a language.  Thai always uses the built-in
/// Thai-optimized pair with the Latin pair as fallback; any other language
/// uses the supplied custom faces where given, else the default pair, and
/// has no fallback.
pub fn load_fonts(
    language: Language,
    custom_font_normal: Option<&str>,
    custom_font_bold: Option<&str>,
) -> (r: FontBundle)
    ensures
        language == Language::Thai ==> {
            &&& r.normal@ == "NotoSansThai"@
            &&& r.bold@ == "NotoSansThai-SemiBold"@
            &&& r.normal_fallback is Some && r.normal_fallback->0@ == "NotoSans"@
            &&& r.bold_fallback is Some && r.bold_fallback->0@ == "NotoSans-SemiBold"@
        },
        language != Language::Thai ==> {
            &&& r.normal@ == match custom_font_normal {
                Some(s) => s@,
                None => "Helvetica"@,
            }
            &&& r.bold@ == match custom_font_bold {
                Some(s) => s@,
                None => "Helvetica-Bold"@,
            }
            &&& r.normal_fallback is None
            &&& r.bold_fallback is None
        },
{
    match language {
        Language::Thai => FontBundle {
            normal: "NotoSansThai".to_owned(),
            bold: "NotoSansThai-SemiBold".to_owned(),
            normal_fallback: Some("NotoSans".to_owned()),
            bold_fallback: Some("NotoSans-SemiBold".to_owned()),
        },
        _ => FontBundle {
            normal: match custom_font_normal {
                Some(s) => s.to_owned(),
                None => "Helvetica".to_owned(),
            },
            bold: match custom_font_bold {
                Some(s) => s.to_owned(),
                None => "Helvetica-Bold".to_owned(),
            },
            normal_fallback: None,
            bold_fallback: None,
        },
    }
}

} // verus!

//! Display colours of the severity levels.

use vstd::prelude::*;
use vstd::string::*;
use crate::text::str_eq;

verus! {

/// A level's colour as plain values: the RGB triple, the CMYK quadruple and
/// the two hexadecimal renderings as character sequences.
pub struct ColorEntry {
    pub rgb: (int, int, int),
    pub cmyk: (int, int, int, int),
    pub rgb_hex: Seq<char>,
    pub cmyk_hex: Seq<char>,
}

/// The encodings in which a colour can be asked for.
#[derive(Clone, Copy, Debug, PartialEq, Eq)]
pub enum ColorType {
    Rgb,
    Cmyk,
    RgbHex,
    CmykHex,
}

/// The tag by which an encoding is named.
pub open spec fn color_type_tag(color_type: ColorType) -> Seq<char> {
    match color_type {
        ColorType::Rgb => "RGB"@,
        ColorType::Cmyk => "CMYK"@,
        ColorType::RgbHex => "RGB_HEX"@,
        ColorType::CmykHex => "CMYK_HEX"@,
    }
}

/// No two encodings have the same tag.
pub proof fn lemma_color_type_tags_distinct(a: ColorType, b: ColorType)
    requires
        color_type_tag(a) == color_type_tag(b),
    ensures
        a == b,
{
    reveal_strlit("RGB");
    reveal_strlit("CMYK");
    reveal_strlit("RGB_HEX");
    reveal_strlit("CMYK_HEX");
    // the tags have 3, 4, 7 and 8 letters
    assert("RGB"@.len() == 3 && "CMYK"@.len() == 4);
    assert("RGB_HEX"@.len() == 7 && "CMYK_HEX"@.len() == 8);
    assert(color_type_tag(a).len() == color_type_tag(b).len());
}

/// Reads an encoding tag: the result is an encoding exactly when the string
/// is that encoding's tag, letter for letter and in capitals.
pub fn color_type_from_str(tag: &str) -> (color_type: Option<ColorType>)
    ensures
        forall|t: ColorType| color_type == Some(t) <==> tag@ == #[trigger] color_type_tag(t),
{
    let color_type = if str_eq(tag, "RGB") {
        Some(ColorType::Rgb)
    } else if str_eq(tag, "CMYK") {
        Some(ColorType::Cmyk)
    } else if str_eq(tag, "RGB_HEX") {
        Some(ColorType::RgbHex)
    } else if str_eq(tag, "CMYK_HEX") {
        Some(ColorType::CmykHex)
    } else {
        None
    };
    proof {
        if let Some(found) = color_type {
            assert(tag@ == color_type_tag(found));
            assert forall|t: ColorType| tag@ == #[trigger] color_type_tag(t) implies t
                == found by {
                lemma_color_type_tags_distinct(t, found);
            }
        }
    }
    color_type
}

} // verus!

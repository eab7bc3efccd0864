//! Language codes understood by the translation services.
use vstd::prelude::*;

use crate::text::str_eq;

verus! {

pub const ENGLISH: &'static str = "en";
pub const SPANISH: &'static str = "es";
pub const FRENCH: &'static str = "fr";
pub const GERMAN: &'static str = "de";
pub const ITALIAN: &'static str = "it";
pub const PORTUGUESE: &'static str = "pt";
pub const RUSSIAN: &'static str = "ru";
pub const CHINESE: &'static str = "zh";
pub const JAPANESE: &'static str = "ja";
pub const KOREAN: &'static str = "ko";
pub const ARABIC: &'static str = "ar";
pub const HINDI: &'static str = "hi";
pub const UKRAINIAN: &'static str = "uk";
pub const POLISH: &'static str = "pl";
pub const DUTCH: &'static str = "nl";
pub const TURKISH: &'static str = "tr";

/// The ISO 639-1 (and a few ISO 639-2) language codes that most translation
/// services accept.
pub open spec fn valid_codes() -> Seq<Seq<char>> {
    seq![
        "af"@, "sq"@, "am"@, "ar"@, "hy"@, "az"@, "eu"@, "be"@, "bn"@, "bs"@, "bg"@, "ca"@,
        "ceb"@, "zh"@, "co"@, "hr"@, "cs"@, "da"@, "nl"@, "en"@, "eo"@, "et"@, "fi"@, "fr"@,
        "fy"@, "gl"@, "ka"@, "de"@, "el"@, "gu"@, "ht"@, "ha"@, "haw"@, "he"@, "hi"@, "hmn"@,
        "hu"@, "is"@, "ig"@, "id"@, "ga"@, "it"@, "ja"@, "jv"@, "kn"@, "kk"@, "km"@, "rw"@,
        "ko"@, "ku"@, "ky"@, "lo"@, "la"@, "lv"@, "lt"@, "lb"@, "mk"@, "mg"@, "ms"@, "ml"@,
        "mt"@, "mi"@, "mr"@, "mn"@, "my"@, "ne"@, "no"@, "ny"@, "or"@, "ps"@, "fa"@, "pl"@,
        "pt"@, "pa"@, "ro"@, "ru"@, "sm"@, "gd"@, "sr"@, "st"@, "sn"@, "sd"@, "si"@, "sk"@,
        "sl"@, "so"@, "es"@, "su"@, "sw"@, "sv"@, "tl"@, "tg"@, "ta"@, "tt"@, "te"@, "th"@,
        "tr"@, "tk"@, "uk"@, "ur"@, "ug"@, "uz"@, "vi"@, "cy"@, "xh"@, "yi"@, "yo"@, "zu"@,
    ]
}

/// The accepted codes, in the order of `valid_codes`.
fn valid_code_list() -> (r: Vec<&'static str>)
    ensures
        r@.map_values(|s: &str| s@) == valid_codes(),
{
    let r: Vec<&'static str> = vec![
        "af", "sq", "am", "ar", "hy", "az", "eu", "be", "bn", "bs", "bg", "ca", "ceb", "zh",
        "co", "hr", "cs", "da", "nl", "en", "eo", "et", "fi", "fr", "fy", "gl", "ka", "de",
        "el", "gu", "ht", "ha", "haw", "he", "hi", "hmn", "hu", "is", "ig", "id", "ga", "it",
        "ja", "jv", "kn", "kk", "km", "rw", "ko", "ku", "ky", "lo", "la", "lv", "lt", "lb",
        "mk", "mg", "ms", "ml", "mt", "mi", "mr", "mn", "my", "ne", "no", "ny", "or", "ps",
        "fa", "pl", "pt", "pa", "ro", "ru", "sm", "gd", "sr", "st", "sn", "sd", "si", "sk",
        "sl", "so", "es", "su", "sw", "sv", "tl", "tg", "ta", "tt", "te", "th", "tr", "tk",
        "uk", "ur", "ug", "uz", "vi", "cy", "xh", "yi", "yo", "zu",
    ];
    assert(r@.map_values(|s: &str| s@) =~= valid_codes());
    r
}

/// Whether `code` is one of the accepted language codes (exact,
/// case-sensitive match).
pub fn is_valid(code: &str) -> (r: bool)
    ensures
        r == valid_codes().contains(code@),
{
    let list = valid_code_list();
    let ghost codes = list@.map_values(|s: &str| s@);
    for i in 0..list.len()
        invariant
            codes == list@.map_values(|s: &str| s@),
            codes == valid_codes(),
            forall|j: int| 0 <= j < i ==> codes[j] != code@,
    {
        if str_eq(list[i], code) {
            assert(codes[i as int] == code@);
            return true;
        }
    }
    false
}

/// A language code with the common alias `ua` replaced by the ISO 639-1
/// code `uk` (Ukrainian).
pub open spec fn normalized(code: Seq<char>) -> Seq<char> {
    if code == "ua"@ {
        "uk"@
    } else {
        code
    }
}

/// Normalizes a language code (maps the alias `ua` to `uk`).
pub fn normalize(code: &str) -> (r: &str)
    ensures
        r@ == normalized(code@),
{
    if str_eq(code, "ua") {
        "uk"
    } else {
        code
    }
}

} // verus!

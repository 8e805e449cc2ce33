//! Localization.

use vstd::prelude::*;

verus! {

/// Returned from `retro_get_region`: NTSC.
pub const RETRO_REGION_NTSC: u32 = 0;

/// Returned from `retro_get_region`: PAL.
pub const RETRO_REGION_PAL: u32 = 1;

/// Identifiers for supported languages, numbered as the C interface numbers
/// them: in order from 0, with `RETRO_LANGUAGE_DUMMY` at `i32::MAX`.
#[allow(non_camel_case_types)]
#[derive(Clone, Copy, Debug, PartialEq, Eq, Structural)]
pub enum retro_language {
    RETRO_LANGUAGE_ENGLISH,
    RETRO_LANGUAGE_JAPANESE,
    RETRO_LANGUAGE_FRENCH,
    RETRO_LANGUAGE_SPANISH,
    RETRO_LANGUAGE_GERMAN,
    RETRO_LANGUAGE_ITALIAN,
    RETRO_LANGUAGE_DUTCH,
    RETRO_LANGUAGE_PORTUGUESE_BRAZIL,
    RETRO_LANGUAGE_PORTUGUESE_PORTUGAL,
    RETRO_LANGUAGE_RUSSIAN,
    RETRO_LANGUAGE_KOREAN,
    RETRO_LANGUAGE_CHINESE_TRADITIONAL,
    RETRO_LANGUAGE_CHINESE_SIMPLIFIED,
    RETRO_LANGUAGE_ESPERANTO,
    RETRO_LANGUAGE_POLISH,
    RETRO_LANGUAGE_VIETNAMESE,
    RETRO_LANGUAGE_ARABIC,
    RETRO_LANGUAGE_GREEK,
    RETRO_LANGUAGE_TURKISH,
    RETRO_LANGUAGE_SLOVAK,
    RETRO_LANGUAGE_PERSIAN,
    RETRO_LANGUAGE_HEBREW,
    RETRO_LANGUAGE_ASTURIAN,
    RETRO_LANGUAGE_FINNISH,
    RETRO_LANGUAGE_INDONESIAN,
    RETRO_LANGUAGE_SWEDISH,
    RETRO_LANGUAGE_UKRAINIAN,
    RETRO_LANGUAGE_CZECH,
    RETRO_LANGUAGE_CATALAN_VALENCIA,
    RETRO_LANGUAGE_CATALAN,
    RETRO_LANGUAGE_BRITISH_ENGLISH,
    RETRO_LANGUAGE_HUNGARIAN,
    RETRO_LANGUAGE_BELARUSIAN,
    RETRO_LANGUAGE_GALICIAN,
    RETRO_LANGUAGE_NORWEGIAN,
    RETRO_LANGUAGE_LAST,
    /// Defined to ensure that `sizeof(retro_language) == sizeof(int)`. Do not
    /// use.
    RETRO_LANGUAGE_DUMMY,
}

/// The number of a language in the C interface.
pub open spec fn language_number(l: retro_language) -> i32 {
    match l {
        retro_language::RETRO_LANGUAGE_ENGLISH => 0,
        retro_language::RETRO_LANGUAGE_JAPANESE => 1,
        retro_language::RETRO_LANGUAGE_FRENCH => 2,
        retro_language::RETRO_LANGUAGE_SPANISH => 3,
        retro_language::RETRO_LANGUAGE_GERMAN => 4,
        retro_language::RETRO_LANGUAGE_ITALIAN => 5,
        retro_language::RETRO_LANGUAGE_DUTCH => 6,
        retro_language::RETRO_LANGUAGE_PORTUGUESE_BRAZIL => 7,
        retro_language::RETRO_LANGUAGE_PORTUGUESE_PORTUGAL => 8,
        retro_language::RETRO_LANGUAGE_RUSSIAN => 9,
        retro_language::RETRO_LANGUAGE_KOREAN => 10,
        retro_language::RETRO_LANGUAGE_CHINESE_TRADITIONAL => 11,
        retro_language::RETRO_LANGUAGE_CHINESE_SIMPLIFIED => 12,
        retro_language::RETRO_LANGUAGE_ESPERANTO => 13,
        retro_language::RETRO_LANGUAGE_POLISH => 14,
        retro_language::RETRO_LANGUAGE_VIETNAMESE => 15,
        retro_language::RETRO_LANGUAGE_ARABIC => 16,
        retro_language::RETRO_LANGUAGE_GREEK => 17,
        retro_language::RETRO_LANGUAGE_TURKISH => 18,
        retro_language::RETRO_LANGUAGE_SLOVAK => 19,
        retro_language::RETRO_LANGUAGE_PERSIAN => 20,
        retro_language::RETRO_LANGUAGE_HEBREW => 21,
        retro_language::RETRO_LANGUAGE_ASTURIAN => 22,
        retro_language::RETRO_LANGUAGE_FINNISH => 23,
        retro_language::RETRO_LANGUAGE_INDONESIAN => 24,
        retro_language::RETRO_LANGUAGE_SWEDISH => 25,
        retro_language::RETRO_LANGUAGE_UKRAINIAN => 26,
        retro_language::RETRO_LANGUAGE_CZECH => 27,
        retro_language::RETRO_LANGUAGE_CATALAN_VALENCIA => 28,
        retro_language::RETRO_LANGUAGE_CATALAN => 29,
        retro_language::RETRO_LANGUAGE_BRITISH_ENGLISH => 30,
        retro_language::RETRO_LANGUAGE_HUNGARIAN => 31,
        retro_language::RETRO_LANGUAGE_BELARUSIAN => 32,
        retro_language::RETRO_LANGUAGE_GALICIAN => 33,
        retro_language::RETRO_LANGUAGE_NORWEGIAN => 34,
        retro_language::RETRO_LANGUAGE_LAST => 35,
        retro_language::RETRO_LANGUAGE_DUMMY => i32::MAX,
    }
}

impl retro_language {
    /// The number of the language in the C interface.
    pub fn value(self) -> (r: i32)
        ensures
            r == language_number(self),
    {
        match self {
            retro_language::RETRO_LANGUAGE_ENGLISH => 0,
            retro_language::RETRO_LANGUAGE_JAPANESE => 1,
            retro_language::RETRO_LANGUAGE_FRENCH => 2,
            retro_language::RETRO_LANGUAGE_SPANISH => 3,
            retro_language::RETRO_LANGUAGE_GERMAN => 4,
            retro_language::RETRO_LANGUAGE_ITALIAN => 5,
            retro_language::RETRO_LANGUAGE_DUTCH => 6,
            retro_language::RETRO_LANGUAGE_PORTUGUESE_BRAZIL => 7,
            retro_language::RETRO_LANGUAGE_PORTUGUESE_PORTUGAL => 8,
            retro_language::RETRO_LANGUAGE_RUSSIAN => 9,
            retro_language::RETRO_LANGUAGE_KOREAN => 10,
            retro_language::RETRO_LANGUAGE_CHINESE_TRADITIONAL => 11,
            retro_language::RETRO_LANGUAGE_CHINESE_SIMPLIFIED => 12,
            retro_language::RETRO_LANGUAGE_ESPERANTO => 13,
            retro_language::RETRO_LANGUAGE_POLISH => 14,
            retro_language::RETRO_LANGUAGE_VIETNAMESE => 15,
            retro_language::RETRO_LANGUAGE_ARABIC => 16,
            retro_language::RETRO_LANGUAGE_GREEK => 17,
            retro_language::RETRO_LANGUAGE_TURKISH => 18,
            retro_language::RETRO_LANGUAGE_SLOVAK => 19,
            retro_language::RETRO_LANGUAGE_PERSIAN => 20,
            retro_language::RETRO_LANGUAGE_HEBREW => 21,
            retro_language::RETRO_LANGUAGE_ASTURIAN => 22,
            retro_language::RETRO_LANGUAGE_FINNISH => 23,
            retro_language::RETRO_LANGUAGE_INDONESIAN => 24,
            retro_language::RETRO_LANGUAGE_SWEDISH => 25,
            retro_language::RETRO_LANGUAGE_UKRAINIAN => 26,
            retro_language::RETRO_LANGUAGE_CZECH => 27,
            retro_language::RETRO_LANGUAGE_CATALAN_VALENCIA => 28,
            retro_language::RETRO_LANGUAGE_CATALAN => 29,
            retro_language::RETRO_LANGUAGE_BRITISH_ENGLISH => 30,
            retro_language::RETRO_LANGUAGE_HUNGARIAN => 31,
            retro_language::RETRO_LANGUAGE_BELARUSIAN => 32,
            retro_language::RETRO_LANGUAGE_GALICIAN => 33,
            retro_language::RETRO_LANGUAGE_NORWEGIAN => 34,
            retro_language::RETRO_LANGUAGE_LAST => 35,
            retro_language::RETRO_LANGUAGE_DUMMY => i32::MAX,
        }
    }

    /// The language with the given number in the C interface, if any.
    pub fn from_value(v: i32) -> (r: Option<retro_language>)
        ensures
            r matches Some(l) ==> language_number(l) == v,
            r is None ==> forall|l: retro_language| language_number(l) != v,
    {
        match v {
            0 => Some(retro_language::RETRO_LANGUAGE_ENGLISH),
            1 => Some(retro_language::RETRO_LANGUAGE_JAPANESE),
            2 => Some(retro_language::RETRO_LANGUAGE_FRENCH),
            3 => Some(retro_language::RETRO_LANGUAGE_SPANISH),
            4 => Some(retro_language::RETRO_LANGUAGE_GERMAN),
            5 => Some(retro_language::RETRO_LANGUAGE_ITALIAN),
            6 => Some(retro_language::RETRO_LANGUAGE_DUTCH),
            7 => Some(retro_language::RETRO_LANGUAGE_PORTUGUESE_BRAZIL),
            8 => Some(retro_language::RETRO_LANGUAGE_PORTUGUESE_PORTUGAL),
            9 => Some(retro_language::RETRO_LANGUAGE_RUSSIAN),
            10 => Some(retro_language::RETRO_LANGUAGE_KOREAN),
            11 => Some(retro_language::RETRO_LANGUAGE_CHINESE_TRADITIONAL),
            12 => Some(retro_language::RETRO_LANGUAGE_CHINESE_SIMPLIFIED),
            13 => Some(retro_language::RETRO_LANGUAGE_ESPERANTO),
            14 => Some(retro_language::RETRO_LANGUAGE_POLISH),
            15 => Some(retro_language::RETRO_LANGUAGE_VIETNAMESE),
            16 => Some(retro_language::RETRO_LANGUAGE_ARABIC),
            17 => Some(retro_language::RETRO_LANGUAGE_GREEK),
            18 => Some(retro_language::RETRO_LANGUAGE_TURKISH),
            19 => Some(retro_language::RETRO_LANGUAGE_SLOVAK),
            20 => Some(retro_language::RETRO_LANGUAGE_PERSIAN),
            21 => Some(retro_language::RETRO_LANGUAGE_HEBREW),
            22 => Some(retro_language::RETRO_LANGUAGE_ASTURIAN),
            23 => Some(retro_language::RETRO_LANGUAGE_FINNISH),
            24 => Some(retro_language::RETRO_LANGUAGE_INDONESIAN),
            25 => Some(retro_language::RETRO_LANGUAGE_SWEDISH),
            26 => Some(retro_language::RETRO_LANGUAGE_UKRAINIAN),
            27 => Some(retro_language::RETRO_LANGUAGE_CZECH),
            28 => Some(retro_language::RETRO_LANGUAGE_CATALAN_VALENCIA),
            29 => Some(retro_language::RETRO_LANGUAGE_CATALAN),
            30 => Some(retro_language::RETRO_LANGUAGE_BRITISH_ENGLISH),
            31 => Some(retro_language::RETRO_LANGUAGE_HUNGARIAN),
            32 => Some(retro_language::RETRO_LANGUAGE_BELARUSIAN),
            33 => Some(retro_language::RETRO_LANGUAGE_GALICIAN),
            34 => Some(retro_language::RETRO_LANGUAGE_NORWEGIAN),
            35 => Some(retro_language::RETRO_LANGUAGE_LAST),
            2147483647 => Some(retro_language::RETRO_LANGUAGE_DUMMY),
            _ => None,
        }
    }
}

} // verus!

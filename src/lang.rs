//! Keyboard-layout language identifiers and the layout class derived from them.
use vstd::prelude::*;

verus! {

/// Language identifier of the US English layout.
pub const LANG_ID_EN_US: u16 = 0x0409;

/// Language identifier of the Russian layout.
pub const LANG_ID_RU: u16 = 0x0419;

/// Coarse script class of a keyboard layout.
#[derive(Clone, Copy, Debug, PartialEq, Eq, Structural)]
pub enum LayoutClass {
    Latin,
    Cyrillic,
    Unknown,
}

/// The primary language part: the low ten bits.
pub open spec fn primary_of(lang_id: u16) -> u16 {
    (lang_id % 1024) as u16
}

/// Russian, Ukrainian and Belarusian primary language identifiers.
pub open spec fn is_cyrillic_primary(primary: u16) -> bool {
    primary == 0x0019 || primary == 0x0022 || primary == 0x0023
}

/// Primary language identifiers whose layouts type the Latin alphabet:
/// Czech, Danish, German, English, Spanish, Finnish, French, Hungarian,
/// Italian, Dutch, Norwegian, Polish, Portuguese, Romanian, Slovak, Swedish,
/// Turkish, Indonesian, Slovenian, Estonian, Latvian and Lithuanian.
pub open spec fn is_latin_primary(primary: u16) -> bool {
    ||| primary == 0x0005 || primary == 0x0006 || primary == 0x0007 || primary == 0x0009
    ||| primary == 0x000A || primary == 0x000B || primary == 0x000C || primary == 0x000E
    ||| primary == 0x0010 || primary == 0x0013 || primary == 0x0014 || primary == 0x0015
    ||| primary == 0x0016 || primary == 0x0018 || primary == 0x001B || primary == 0x001D
    ||| primary == 0x001F || primary == 0x0021 || primary == 0x0024 || primary == 0x0025
    ||| primary == 0x0026 || primary == 0x0027
}

/// The class of a layout by its language identifier. Layouts of any other
/// script, and the neutral identifier (which also stands for a failed query),
/// are unknown.
pub open spec fn class_of(lang_id: u16) -> LayoutClass {
    if is_cyrillic_primary(primary_of(lang_id)) {
        LayoutClass::Cyrillic
    } else if is_latin_primary(primary_of(lang_id)) {
        LayoutClass::Latin
    } else {
        LayoutClass::Unknown
    }
}

/// The primary language part (low ten bits) of a language identifier.
pub fn primary_lang_id(lang_id: u16) -> (r: u16)
    ensures
        r == primary_of(lang_id),
        r == lang_id & 0x03FF,
{
    assert(lang_id & 0x03FF == lang_id % 1024) by (bit_vector);
    lang_id & 0x03FF
}

pub fn is_cyrillic_lang_id(lang_id: u16) -> (r: bool)
    ensures
        r == is_cyrillic_primary(primary_of(lang_id)),
{
    let p = primary_lang_id(lang_id);
    p == 0x0019 || p == 0x0022 || p == 0x0023
}

pub fn layout_class(lang_id: u16) -> (r: LayoutClass)
    ensures
        r == class_of(lang_id),
{
    if is_cyrillic_lang_id(lang_id) {
        return LayoutClass::Cyrillic;
    }
    let p = primary_lang_id(lang_id);
    if p == 0x0005 || p == 0x0006 || p == 0x0007 || p == 0x0009 || p == 0x000A || p == 0x000B
        || p == 0x000C || p == 0x000E || p == 0x0010 || p == 0x0013 || p == 0x0014 || p == 0x0015
        || p == 0x0016 || p == 0x0018 || p == 0x001B || p == 0x001D || p == 0x001F || p == 0x0021
        || p == 0x0024 || p == 0x0025 || p == 0x0026 || p == 0x0027 {
        LayoutClass::Latin
    } else {
        LayoutClass::Unknown
    }
}

/// The low 16 bits of a layout handle, which hold its language identifier.
pub fn lo_word(value: usize) -> (r: u16)
    ensures
        r == value % 65536,
{
    assert(value & 0xFFFF == value % 65536) by (bit_vector);
    (value & 0xFFFF) as u16
}

/// Whether `ch` lies in the Cyrillic block U+0400..U+04FF.
pub fn is_cyrillic_char(ch: char) -> (r: bool)
    ensures
        r == ('\u{0400}' <= ch && ch <= '\u{04FF}'),
{
    '\u{0400}' <= ch && ch <= '\u{04FF}'
}

/// Reads the probe of a layout: the number of UTF-16 units a layout produced
/// for one key (`count`) and the first of them. The layout is Cyrillic when it
/// produced a character in the Cyrillic block.
pub fn probe_is_cyrillic(count: i32, first_unit: u16) -> (r: bool)
    ensures
        r == (count > 0 && 0x0400 <= first_unit && first_unit <= 0x04FF),
{
    count > 0 && 0x0400 <= first_unit && first_unit <= 0x04FF
}

} // verus!

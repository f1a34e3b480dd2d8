//! The fixed QWERTY to ЙЦУКЕН key-position map.
use vstd::prelude::*;

use crate::text::{chars_of, push_char};

verus! {

/// The Cyrillic character on the ЙЦУКЕН key that carries `c` on QWERTY.
/// Letters keep their case; every other character maps to itself.
pub open spec fn key_to_ru(c: char) -> char {
    match c {
        'q' => 'й', 'w' => 'ц', 'e' => 'у', 'r' => 'к', 't' => 'е',
        'y' => 'н', 'u' => 'г', 'i' => 'ш', 'o' => 'щ', 'p' => 'з',
        'a' => 'ф', 's' => 'ы', 'd' => 'в', 'f' => 'а', 'g' => 'п',
        'h' => 'р', 'j' => 'о', 'k' => 'л', 'l' => 'д',
        'z' => 'я', 'x' => 'ч', 'c' => 'с', 'v' => 'м', 'b' => 'и',
        'n' => 'т', 'm' => 'ь',
        'Q' => 'Й', 'W' => 'Ц', 'E' => 'У', 'R' => 'К', 'T' => 'Е',
        'Y' => 'Н', 'U' => 'Г', 'I' => 'Ш', 'O' => 'Щ', 'P' => 'З',
        'A' => 'Ф', 'S' => 'Ы', 'D' => 'В', 'F' => 'А', 'G' => 'П',
        'H' => 'Р', 'J' => 'О', 'K' => 'Л', 'L' => 'Д',
        'Z' => 'Я', 'X' => 'Ч', 'C' => 'С', 'V' => 'М', 'B' => 'И',
        'N' => 'Т', 'M' => 'Ь',
        other => other,
    }
}

/// Maps one character through the key-position table.
pub fn map_en_to_ru(ch: char) -> (r: char)
    ensures
        r == key_to_ru(ch),
{
    match ch {
        'q' => 'й', 'w' => 'ц', 'e' => 'у', 'r' => 'к', 't' => 'е',
        'y' => 'н', 'u' => 'г', 'i' => 'ш', 'o' => 'щ', 'p' => 'з',
        'a' => 'ф', 's' => 'ы', 'd' => 'в', 'f' => 'а', 'g' => 'п',
        'h' => 'р', 'j' => 'о', 'k' => 'л', 'l' => 'д',
        'z' => 'я', 'x' => 'ч', 'c' => 'с', 'v' => 'м', 'b' => 'и',
        'n' => 'т', 'm' => 'ь',
        'Q' => 'Й', 'W' => 'Ц', 'E' => 'У', 'R' => 'К', 'T' => 'Е',
        'Y' => 'Н', 'U' => 'Г', 'I' => 'Ш', 'O' => 'Щ', 'P' => 'З',
        'A' => 'Ф', 'S' => 'Ы', 'D' => 'В', 'F' => 'А', 'G' => 'П',
        'H' => 'Р', 'J' => 'О', 'K' => 'Л', 'L' => 'Д',
        'Z' => 'Я', 'X' => 'Ч', 'C' => 'С', 'V' => 'М', 'B' => 'И',
        'N' => 'Т', 'M' => 'Ь',
        other => other,
    }
}

/// The transliteration of a whole character sequence, one character at a time.
pub open spec fn transliterated(s: Seq<char>) -> Seq<char> {
    s.map_values(|c: char| key_to_ru(c))
}

/// Transliterates `s` character by character through the key-position table.
pub fn transliterate(s: &str) -> (r: String)
    ensures
        r@ == transliterated(s@),
        r@.len() == s@.len(),
        forall|i: int| 0 <= i < s@.len() ==> #[trigger] r@[i] == key_to_ru(s@[i]),
{
    let keys = chars_of(s);
    transliterate_chars(&keys)
}

/// Transliterates a sequence of keys character by character.
pub fn transliterate_chars(keys: &Vec<char>) -> (r: String)
    ensures
        r@ == transliterated(keys@),
{
    let mut out = String::new();
    let mut i: usize = 0;
    while i < keys.len()
        invariant
            i <= keys.len(),
            out@ == transliterated(keys@.subrange(0, i as int)),
        decreases keys.len() - i,
    {
        let c = map_en_to_ru(keys[i]);
        push_char(&mut out, c);
        i = i + 1;
        assert(transliterated(keys@.subrange(0, i as int)) =~= transliterated(keys@.subrange(0, i - 1)).push(c));
    }
    assert(keys@.subrange(0, keys.len() as int) =~= keys@);
    out
}

} // verus!

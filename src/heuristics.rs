//! Word-level heuristics: vowel ratios, strong English bigrams, and the two
//! acceptance tests that decide whether a committed word was typed in the
//! wrong layout.
//!
//! A vowel ratio is kept as two counts and compared with a threshold given in
//! percent, so `vowels / letters < pct / 100` is decided exactly as
//! `100 * vowels < pct * letters`. A ratio over no letters counts as zero.
//!
//! A Latin word is a plausible English word when it consists of ASCII letters
//! only and either its vowel ratio lies within the configured band or it holds
//! a strong English bigram. Ambiguous cases resolve to no correction.
use vstd::prelude::*;

use crate::text::{alphabetic, chars_of, is_alphabetic};

verus! {

pub open spec fn is_ascii_upper(c: char) -> bool {
    'A' <= c && c <= 'Z'
}

pub open spec fn is_ascii_lower(c: char) -> bool {
    'a' <= c && c <= 'z'
}

pub open spec fn is_ascii_letter(c: char) -> bool {
    is_ascii_upper(c) || is_ascii_lower(c)
}

/// ASCII lowercasing of one character; other characters are unchanged.
pub open spec fn ascii_lower(c: char) -> char {
    if is_ascii_upper(c) {
        ((c as u32) + 32) as char
    } else {
        c
    }
}

pub fn to_ascii_lower(c: char) -> (r: char)
    ensures
        r == ascii_lower(c),
{
    if 'A' <= c && c <= 'Z' {
        ((c as u8) + 32) as char
    } else {
        c
    }
}

pub open spec fn is_en_vowel(c: char) -> bool {
    c == 'a' || c == 'e' || c == 'i' || c == 'o' || c == 'u' || c == 'y' || c == 'A' || c == 'E'
        || c == 'I' || c == 'O' || c == 'U' || c == 'Y'
}

pub open spec fn is_ru_vowel(c: char) -> bool {
    c == 'а' || c == 'е' || c == 'ё' || c == 'и' || c == 'о' || c == 'у' || c == 'ы' || c == 'э'
        || c == 'ю' || c == 'я' || c == 'А' || c == 'Е' || c == 'Ё' || c == 'И' || c == 'О'
        || c == 'У' || c == 'Ы' || c == 'Э' || c == 'Ю' || c == 'Я'
}

/// How many characters of `s` satisfy `p`.
pub open spec fn count_where(s: Seq<char>, p: spec_fn(char) -> bool) -> nat
    decreases s.len(),
{
    if s.len() == 0 {
        0
    } else {
        count_where(s.drop_last(), p) + if p(s.last()) {
            1nat
        } else {
            0nat
        }
    }
}

pub proof fn lemma_count_where_bounded(s: Seq<char>, p: spec_fn(char) -> bool)
    ensures
        count_where(s, p) <= s.len(),
    decreases s.len(),
{
    if s.len() > 0 {
        lemma_count_where_bounded(s.drop_last(), p);
    }
}

pub proof fn lemma_count_where_step(s: Seq<char>, i: int, p: spec_fn(char) -> bool)
    requires
        0 <= i < s.len(),
    ensures
        count_where(s.subrange(0, i + 1), p) == count_where(s.subrange(0, i), p) + if p(s[i]) {
            1nat
        } else {
            0nat
        },
{
    assert(s.subrange(0, i + 1).drop_last() =~= s.subrange(0, i));
}

pub open spec fn en_letters(s: Seq<char>) -> nat {
    count_where(s, |c: char| is_ascii_letter(c))
}

pub open spec fn en_vowels(s: Seq<char>) -> nat {
    count_where(s, |c: char| is_ascii_letter(c) && is_en_vowel(c))
}

pub open spec fn ru_letters(s: Seq<char>) -> nat {
    count_where(s, |c: char| alphabetic(c))
}

pub open spec fn ru_vowels(s: Seq<char>) -> nat {
    count_where(s, |c: char| is_ru_vowel(c))
}

/// `vowels / letters < pct / 100`, where no letters means a ratio of zero.
pub open spec fn ratio_below(vowels: nat, letters: nat, pct: nat) -> bool {
    if letters == 0 {
        0 < pct
    } else {
        vowels * 100 < pct * letters
    }
}

/// `vowels / letters > pct / 100`, where no letters means a ratio of zero.
pub open spec fn ratio_above(vowels: nat, letters: nat, pct: nat) -> bool {
    if letters == 0 {
        false
    } else {
        vowels * 100 > pct * letters
    }
}

proof fn lemma_product_fits(pct: u8, n: usize)
    ensures
        (pct as int) * (n as int) <= u128::MAX,
{
    assert((pct as int) * (n as int) <= 255 * (n as int)) by (nonlinear_arith);
}

/// A vowel ratio held as its two counts.
#[derive(Clone, Copy, Debug, PartialEq, Eq, Structural)]
pub struct VowelRatio {
    pub vowels: usize,
    pub letters: usize,
}

impl VowelRatio {
    /// Whether the ratio is below `pct` percent.
    pub fn below(&self, pct: u8) -> (r: bool)
        ensures
            r == ratio_below(self.vowels as nat, self.letters as nat, pct as nat),
    {
        if self.letters == 0 {
            0 < pct
        } else {
            proof {
                lemma_product_fits(pct, self.letters);
            }
            (self.vowels as u128) * 100 < (pct as u128) * (self.letters as u128)
        }
    }

    /// Whether the ratio is above `pct` percent.
    pub fn above(&self, pct: u8) -> (r: bool)
        ensures
            r == ratio_above(self.vowels as nat, self.letters as nat, pct as nat),
    {
        if self.letters == 0 {
            false
        } else {
            proof {
                lemma_product_fits(pct, self.letters);
            }
            (self.vowels as u128) * 100 > (pct as u128) * (self.letters as u128)
        }
    }
}

/// Share of English vowels among the ASCII letters of `s`.
pub fn en_vowel_ratio(s: &str) -> (r: VowelRatio)
    ensures
        r.vowels == en_vowels(s@),
        r.letters == en_letters(s@),
{
    let cs = chars_of(s);
    let mut vowels: usize = 0;
    let mut letters: usize = 0;
    let mut i: usize = 0;
    while i < cs.len()
        invariant
            i <= cs.len(),
            cs@ == s@,
            vowels == en_vowels(cs@.subrange(0, i as int)),
            letters == en_letters(cs@.subrange(0, i as int)),
        decreases cs.len() - i,
    {
        let c = cs[i];
        proof {
            lemma_count_where_step(cs@, i as int, |c: char| is_ascii_letter(c));
            lemma_count_where_step(cs@, i as int, |c: char| is_ascii_letter(c) && is_en_vowel(c));
            lemma_count_where_bounded(cs@.subrange(0, i as int), |c: char| is_ascii_letter(c));
            lemma_count_where_bounded(
                cs@.subrange(0, i as int),
                |c: char| is_ascii_letter(c) && is_en_vowel(c),
            );
        }
        if ('a' <= c && c <= 'z') || ('A' <= c && c <= 'Z') {
            letters = letters + 1;
            if c == 'a' || c == 'e' || c == 'i' || c == 'o' || c == 'u' || c == 'y' || c == 'A'
                || c == 'E' || c == 'I' || c == 'O' || c == 'U' || c == 'Y' {
                vowels = vowels + 1;
            }
        }
        i = i + 1;
    }
    assert(cs@.subrange(0, cs.len() as int) =~= cs@);
    VowelRatio { vowels, letters }
}

/// How many Russian vowels `s` holds.
pub fn ru_vowel_count(s: &str) -> (r: usize)
    ensures
        r == ru_vowels(s@),
{
    let cs = chars_of(s);
    let mut vowels: usize = 0;
    let mut i: usize = 0;
    while i < cs.len()
        invariant
            i <= cs.len(),
            cs@ == s@,
            vowels == ru_vowels(cs@.subrange(0, i as int)),
        decreases cs.len() - i,
    {
        let c = cs[i];
        proof {
            lemma_count_where_step(cs@, i as int, |c: char| is_ru_vowel(c));
            lemma_count_where_bounded(cs@.subrange(0, i as int), |c: char| is_ru_vowel(c));
        }
        if c == 'а' || c == 'е' || c == 'ё' || c == 'и' || c == 'о' || c == 'у' || c == 'ы'
            || c == 'э' || c == 'ю' || c == 'я' || c == 'А' || c == 'Е' || c == 'Ё' || c == 'И'
            || c == 'О' || c == 'У' || c == 'Ы' || c == 'Э' || c == 'Ю' || c == 'Я' {
            vowels = vowels + 1;
        }
        i = i + 1;
    }
    assert(cs@.subrange(0, cs.len() as int) =~= cs@);
    vowels
}

/// How many alphabetic characters `s` holds.
pub fn alphabetic_count(s: &str) -> (r: usize)
    ensures
        r == ru_letters(s@),
{
    let cs = chars_of(s);
    let mut letters: usize = 0;
    let mut i: usize = 0;
    while i < cs.len()
        invariant
            i <= cs.len(),
            cs@ == s@,
            letters == ru_letters(cs@.subrange(0, i as int)),
        decreases cs.len() - i,
    {
        let c = cs[i];
        proof {
            lemma_count_where_step(cs@, i as int, |c: char| alphabetic(c));
            lemma_count_where_bounded(cs@.subrange(0, i as int), |c: char| alphabetic(c));
        }
        if is_alphabetic(c) {
            letters = letters + 1;
        }
        i = i + 1;
    }
    assert(cs@.subrange(0, cs.len() as int) =~= cs@);
    letters
}

/// Share of Russian vowels among the alphabetic characters of `s`.
pub fn ru_vowel_ratio(s: &str) -> (r: VowelRatio)
    ensures
        r.vowels == ru_vowels(s@),
        r.letters == ru_letters(s@),
{
    VowelRatio { vowels: ru_vowel_count(s), letters: alphabetic_count(s) }
}

/// Acceptance thresholds of the heuristics, each in percent.
#[derive(Clone, Copy, Debug, PartialEq, Eq, Structural)]
pub struct Thresholds {
    /// Lowest English vowel ratio of a plausible English word.
    pub en_vowel_min_pct: u8,
    /// Highest English vowel ratio of a plausible English word.
    pub en_vowel_max_pct: u8,
    /// Lowest Russian vowel ratio for a Latin to Cyrillic correction.
    pub ru_vowel_min_pct: u8,
    /// Russian vowel ratio under which the Cyrillic reading is taken for garbage.
    pub ru_garbage_pct: u8,
    /// The same bound, used when the Latin word holds a strong English bigram.
    pub ru_garbage_bigram_pct: u8,
}

pub const EN_VOWEL_MIN_PCT: u8 = 15;
pub const EN_VOWEL_MAX_PCT: u8 = 70;
pub const RU_VOWEL_MIN_PCT: u8 = 20;
pub const RU_GARBAGE_PCT: u8 = 25;
pub const RU_GARBAGE_BIGRAM_PCT: u8 = 45;

pub open spec fn standard_thresholds() -> Thresholds {
    Thresholds {
        en_vowel_min_pct: EN_VOWEL_MIN_PCT,
        en_vowel_max_pct: EN_VOWEL_MAX_PCT,
        ru_vowel_min_pct: RU_VOWEL_MIN_PCT,
        ru_garbage_pct: RU_GARBAGE_PCT,
        ru_garbage_bigram_pct: RU_GARBAGE_BIGRAM_PCT,
    }
}

impl Thresholds {
    /// The thresholds the detector ships with.
    pub fn standard() -> (r: Thresholds)
        ensures
            r == standard_thresholds(),
    {
        Thresholds {
            en_vowel_min_pct: EN_VOWEL_MIN_PCT,
            en_vowel_max_pct: EN_VOWEL_MAX_PCT,
            ru_vowel_min_pct: RU_VOWEL_MIN_PCT,
            ru_garbage_pct: RU_GARBAGE_PCT,
            ru_garbage_bigram_pct: RU_GARBAGE_BIGRAM_PCT,
        }
    }
}

/// A non-empty word of ASCII letters only.
pub open spec fn is_ascii_word_spec(s: Seq<char>) -> bool {
    s.len() > 0 && forall|i: int| 0 <= i < s.len() ==> is_ascii_letter(#[trigger] s[i])
}

/// One of the bigrams "th", "sh", "ch", "ck", "qu", "ng", "oo", "ee".
pub open spec fn is_strong_bigram(a: char, b: char) -> bool {
    ||| a == 't' && b == 'h'
    ||| a == 's' && b == 'h'
    ||| a == 'c' && b == 'h'
    ||| a == 'c' && b == 'k'
    ||| a == 'q' && b == 'u'
    ||| a == 'n' && b == 'g'
    ||| a == 'o' && b == 'o'
    ||| a == 'e' && b == 'e'
}

/// Some two adjacent characters of `s`, ASCII case ignored, form a strong bigram.
pub open spec fn has_strong_bigram(s: Seq<char>) -> bool {
    exists|i: int|
        0 <= i && i + 1 < s.len() && #[trigger] is_strong_bigram(
            ascii_lower(s[i]),
            ascii_lower(s[i + 1]),
        )
}

pub open spec fn en_vowels_in_band(s: Seq<char>, th: Thresholds) -> bool {
    &&& !ratio_below(en_vowels(s), en_letters(s), th.en_vowel_min_pct as nat)
    &&& !ratio_above(en_vowels(s), en_letters(s), th.en_vowel_max_pct as nat)
}

pub open spec fn plausible_english(s: Seq<char>, th: Thresholds) -> bool {
    is_ascii_word_spec(s) && (en_vowels_in_band(s, th) || has_strong_bigram(s))
}

/// The Latin to Cyrillic test on the typed keys and their transliteration.
pub open spec fn accepts_en_to_ru(typed: Seq<char>, converted: Seq<char>, th: Thresholds) -> bool {
    accepts_en_to_ru_counts(typed, ru_vowels(converted), ru_letters(converted), th)
}

/// The Latin to Cyrillic test, given the Russian vowel and letter counts of
/// the transliteration.
pub open spec fn accepts_en_to_ru_counts(typed: Seq<char>, ru_vowels: nat, ru_letters: nat, th: Thresholds) -> bool {
    &&& is_ascii_word_spec(typed)
    &&& !plausible_english(typed, th)
    &&& !ratio_below(ru_vowels, ru_letters, th.ru_vowel_min_pct as nat)
}

/// The Cyrillic to Latin test on the typed keys and what they produced on screen.
pub open spec fn accepts_ru_to_en(typed: Seq<char>, would_be_ru: Seq<char>, th: Thresholds) -> bool {
    accepts_ru_to_en_counts(typed, ru_vowels(would_be_ru), ru_letters(would_be_ru), th)
}

/// The Cyrillic to Latin test, given the Russian vowel and letter counts of
/// what the keys showed on screen.
pub open spec fn accepts_ru_to_en_counts(typed: Seq<char>, ru_vowels: nat, ru_letters: nat, th: Thresholds) -> bool {
    &&& is_ascii_word_spec(typed)
    &&& plausible_english(typed, th)
    &&& (ratio_below(ru_vowels, ru_letters, th.ru_garbage_pct as nat) || (has_strong_bigram(typed)
        && ratio_below(ru_vowels, ru_letters, th.ru_garbage_bigram_pct as nat)))
}

/// Some character of `s` is an ASCII letter, and every ASCII letter is uppercase.
pub open spec fn all_upper_ascii(s: Seq<char>) -> bool {
    &&& exists|i: int| 0 <= i < s.len() && is_ascii_letter(#[trigger] s[i])
    &&& forall|i: int| 0 <= i < s.len() && is_ascii_letter(#[trigger] s[i]) ==> is_ascii_upper(s[i])
}

/// `s` holds both an ASCII lowercase and an ASCII uppercase letter.
pub open spec fn mixed_case_ascii(s: Seq<char>) -> bool {
    &&& exists|i: int| 0 <= i < s.len() && is_ascii_lower(#[trigger] s[i])
    &&& exists|i: int| 0 <= i < s.len() && is_ascii_upper(#[trigger] s[i])
}

pub fn is_ascii_word(s: &str) -> (r: bool)
    ensures
        r == is_ascii_word_spec(s@),
{
    let cs = chars_of(s);
    if cs.len() == 0 {
        return false;
    }
    let mut i: usize = 0;
    while i < cs.len()
        invariant
            i <= cs.len(),
            cs@ == s@,
            forall|j: int| 0 <= j < i ==> is_ascii_letter(#[trigger] cs@[j]),
        decreases cs.len() - i,
    {
        let c = cs[i];
        if !(('a' <= c && c <= 'z') || ('A' <= c && c <= 'Z')) {
            return false;
        }
        i = i + 1;
    }
    true
}

/// Whether `s`, ASCII case ignored, holds a strong English bigram.
pub fn has_strong_english_bigrams(typed: &str) -> (r: bool)
    ensures
        r == has_strong_bigram(typed@),
{
    let cs = chars_of(typed);
    if cs.len() < 2 {
        return false;
    }
    let last: usize = cs.len() - 1;
    let mut i: usize = 0;
    while i < last
        invariant
            cs@ == typed@,
            last + 1 == cs@.len(),
            forall|j: int|
                0 <= j < i && j + 1 < cs@.len() ==> !#[trigger] is_strong_bigram(
                    ascii_lower(cs@[j]),
                    ascii_lower(cs@[j + 1]),
                ),
        decreases cs.len() - i,
    {
        let a = to_ascii_lower(cs[i]);
        let b = to_ascii_lower(cs[i + 1]);
        if (a == 't' && b == 'h') || (a == 's' && b == 'h') || (a == 'c' && b == 'h') || (a == 'c'
            && b == 'k') || (a == 'q' && b == 'u') || (a == 'n' && b == 'g') || (a == 'o' && b
            == 'o') || (a == 'e' && b == 'e') {
            assert(is_strong_bigram(ascii_lower(cs@[i as int]), ascii_lower(cs@[i + 1])));
            return true;
        }
        i = i + 1;
    }
    false
}

/// Whether `typed` reads as a plausible English word under `th`.
pub fn looks_like_english_word_with(typed: &str, th: &Thresholds) -> (r: bool)
    ensures
        r == plausible_english(typed@, *th),
{
    if !is_ascii_word(typed) {
        return false;
    }
    let ratio = en_vowel_ratio(typed);
    let in_band = !ratio.below(th.en_vowel_min_pct) && !ratio.above(th.en_vowel_max_pct);
    in_band || has_strong_english_bigrams(typed)
}

/// Whether `typed` reads as a plausible English word under the standard thresholds.
pub fn looks_like_english_word(typed: &str) -> (r: bool)
    ensures
        r == plausible_english(typed@, standard_thresholds()),
{
    looks_like_english_word_with(typed, &Thresholds::standard())
}

/// Whether Latin keys `typed`, committed under a Latin layout, were meant as
/// the Cyrillic word `converted`.
pub fn should_autocorrect_en_to_ru_with(typed: &str, converted: &str, th: &Thresholds) -> (r: bool)
    ensures
        r == accepts_en_to_ru(typed@, converted@, *th),
{
    accepts_en_to_ru_ratio(typed, &ru_vowel_ratio(converted), th)
}

/// The Latin to Cyrillic test on the typed keys, given the Russian vowel
/// ratio of their transliteration.
pub fn accepts_en_to_ru_ratio(typed: &str, ru: &VowelRatio, th: &Thresholds) -> (r: bool)
    ensures
        r == accepts_en_to_ru_counts(typed@, ru.vowels as nat, ru.letters as nat, *th),
{
    if !is_ascii_word(typed) {
        return false;
    }
    if looks_like_english_word_with(typed, th) {
        return false;
    }
    !ru.below(th.ru_vowel_min_pct)
}

pub fn should_autocorrect_en_to_ru(typed: &str, converted: &str) -> (r: bool)
    ensures
        r == accepts_en_to_ru(typed@, converted@, standard_thresholds()),
{
    should_autocorrect_en_to_ru_with(typed, converted, &Thresholds::standard())
}

/// Whether Latin keys `typed`, committed under a Cyrillic layout where they
/// showed as `would_be_ru`, were meant as the English word `typed`.
pub fn should_autocorrect_ru_to_en_with(typed: &str, would_be_ru: &str, th: &Thresholds) -> (r: bool)
    ensures
        r == accepts_ru_to_en(typed@, would_be_ru@, *th),
{
    accepts_ru_to_en_ratio(typed, &ru_vowel_ratio(would_be_ru), th)
}

/// The Cyrillic to Latin test on the typed keys, given the Russian vowel
/// ratio of what they showed on screen.
pub fn accepts_ru_to_en_ratio(typed: &str, ru: &VowelRatio, th: &Thresholds) -> (r: bool)
    ensures
        r == accepts_ru_to_en_counts(typed@, ru.vowels as nat, ru.letters as nat, *th),
{
    if !is_ascii_word(typed) {
        return false;
    }
    if !looks_like_english_word_with(typed, th) {
        return false;
    }
    if ru.below(th.ru_garbage_pct) {
        return true;
    }
    has_strong_english_bigrams(typed) && ru.below(th.ru_garbage_bigram_pct)
}

pub fn should_autocorrect_ru_to_en(typed: &str, would_be_ru: &str) -> (r: bool)
    ensures
        r == accepts_ru_to_en(typed@, would_be_ru@, standard_thresholds()),
{
    should_autocorrect_ru_to_en_with(typed, would_be_ru, &Thresholds::standard())
}

pub fn is_all_upper_ascii(s: &Vec<char>) -> (r: bool)
    ensures
        r == all_upper_ascii(s@),
{
    let mut has_letters = false;
    let mut i: usize = 0;
    while i < s.len()
        invariant
            i <= s.len(),
            has_letters == exists|j: int| 0 <= j < i && is_ascii_letter(#[trigger] s@[j]),
            forall|j: int| 0 <= j < i && is_ascii_letter(#[trigger] s@[j]) ==> is_ascii_upper(s@[j]),
        decreases s.len() - i,
    {
        let c = s[i];
        if ('a' <= c && c <= 'z') || ('A' <= c && c <= 'Z') {
            has_letters = true;
            if !('A' <= c && c <= 'Z') {
                return false;
            }
        }
        i = i + 1;
    }
    has_letters
}

pub fn is_mixed_case_ascii(s: &Vec<char>) -> (r: bool)
    ensures
        r == mixed_case_ascii(s@),
{
    let mut has_lower = false;
    let mut has_upper = false;
    let mut i: usize = 0;
    while i < s.len()
        invariant
            i <= s.len(),
            has_lower == exists|j: int| 0 <= j < i && is_ascii_lower(#[trigger] s@[j]),
            has_upper == exists|j: int| 0 <= j < i && is_ascii_upper(#[trigger] s@[j]),
        decreases s.len() - i,
    {
        let c = s[i];
        if 'a' <= c && c <= 'z' {
            has_lower = true;
        } else if 'A' <= c && c <= 'Z' {
            has_upper = true;
        }
        i = i + 1;
    }
    has_lower && has_upper
}

} // verus!

//! The decision taken on a committed word: leave it, or convert it in one of
//! the two directions.
use vstd::prelude::*;

use crate::config::LayoutSwitcherConfig;
use crate::errors::PlatformError;
use crate::heuristics::{
    accepts_en_to_ru, accepts_en_to_ru_counts, accepts_en_to_ru_ratio, accepts_ru_to_en,
    accepts_ru_to_en_counts, accepts_ru_to_en_ratio, alphabetic_count, all_upper_ascii,
    is_all_upper_ascii, is_mixed_case_ascii, mixed_case_ascii, plausible_english, ru_letters,
    ru_vowel_count, ru_vowels, Thresholds, VowelRatio,
};
use crate::lang::{class_of, layout_class, LayoutClass};
use crate::text::string_of;
use crate::translit::{transliterate_chars, transliterated};

verus! {

#[derive(Clone, Copy, Debug, PartialEq, Eq, Structural)]
pub enum Direction {
    /// Latin keys were typed where a Cyrillic word was meant.
    EnToRu,
    /// An English word was typed under a Cyrillic layout.
    RuToEn,
    NoCorrection,
}

/// The outcome of evaluating one word: the text now on screen and the text
/// that should replace it.
#[derive(Debug)]
pub struct CorrectionDecision {
    pub direction: Direction,
    pub original: String,
    pub converted: String,
}

pub struct DecisionView {
    pub direction: Direction,
    pub original: Seq<char>,
    pub converted: Seq<char>,
}

impl View for CorrectionDecision {
    type V = DecisionView;

    open spec fn view(&self) -> DecisionView {
        DecisionView { direction: self.direction, original: self.original@, converted: self.converted@ }
    }
}

pub open spec fn no_correction(word: Seq<char>) -> DecisionView {
    DecisionView { direction: Direction::NoCorrection, original: word, converted: word }
}

/// Words that are never corrected: shorter than `min_len`, all-uppercase
/// ASCII, or mixed-case ASCII.
pub open spec fn filtered_out(word: Seq<char>, min_len: nat) -> bool {
    word.len() < min_len || all_upper_ascii(word) || mixed_case_ascii(word)
}

/// The decision on the buffered keys `word` committed under layout `class`.
pub open spec fn decision_of(word: Seq<char>, class: LayoutClass, min_len: nat, th: Thresholds) -> DecisionView {
    decision_given(word, class, min_len, th, ru_letters(transliterated(word)))
}

/// The decision on `word`, given how many characters of its transliteration
/// are alphabetic.
pub open spec fn decision_given(
    word: Seq<char>,
    class: LayoutClass,
    min_len: nat,
    th: Thresholds,
    ru_letter_count: nat,
) -> DecisionView {
    let ru = transliterated(word);
    if filtered_out(word, min_len) {
        no_correction(word)
    } else if class == LayoutClass::Latin && accepts_en_to_ru_counts(word, ru_vowels(ru), ru_letter_count, th) {
        DecisionView { direction: Direction::EnToRu, original: word, converted: ru }
    } else if class == LayoutClass::Cyrillic && accepts_ru_to_en_counts(word, ru_vowels(ru), ru_letter_count, th) {
        DecisionView { direction: Direction::RuToEn, original: ru, converted: word }
    } else {
        no_correction(word)
    }
}

/// Decides on the buffered keys `word`, committed while a layout of `class`
/// was active.
pub fn decide(word: &Vec<char>, class: LayoutClass, min_len: usize, th: &Thresholds) -> (r: CorrectionDecision)
    ensures
        r@ == decision_of(word@, class, min_len as nat, *th),
{
    let ru = transliterate_chars(word);
    let letters = alphabetic_count(ru.as_str());
    decide_given(word, class, min_len, th, letters)
}

/// Decides on `word`, given the number of alphabetic characters of its
/// transliteration.
pub fn decide_given(
    word: &Vec<char>,
    class: LayoutClass,
    min_len: usize,
    th: &Thresholds,
    ru_letter_count: usize,
) -> (r: CorrectionDecision)
    ensures
        r@ == decision_given(word@, class, min_len as nat, *th, ru_letter_count as nat),
{
    let typed = string_of(word);
    if word.len() < min_len || is_all_upper_ascii(word) || is_mixed_case_ascii(word) {
        return CorrectionDecision { direction: Direction::NoCorrection, original: typed, converted: string_of(word) };
    }
    let ru = transliterate_chars(word);
    let ratio = VowelRatio { vowels: ru_vowel_count(ru.as_str()), letters: ru_letter_count };
    match class {
        LayoutClass::Latin => {
            if accepts_en_to_ru_ratio(typed.as_str(), &ratio, th) {
                return CorrectionDecision { direction: Direction::EnToRu, original: typed, converted: ru };
            }
        },
        LayoutClass::Cyrillic => {
            if accepts_ru_to_en_ratio(typed.as_str(), &ratio, th) {
                return CorrectionDecision { direction: Direction::RuToEn, original: ru, converted: typed };
            }
        },
        LayoutClass::Unknown => {},
    }
    CorrectionDecision { direction: Direction::NoCorrection, original: typed, converted: string_of(word) }
}

/// Only an answer of "not forbidden" permits action; a forbidden context and
/// a failed check both forbid it.
pub open spec fn guard_allows(forbidden: Result<bool, PlatformError>) -> bool {
    forbidden == Ok::<bool, PlatformError>(false)
}

/// The language identifier to classify; a failed query reads as the neutral one.
pub open spec fn lang_or_neutral(lang: Result<u16, PlatformError>) -> u16 {
    match lang {
        Ok(id) => id,
        Err(_) => 0,
    }
}

/// The decision at a word boundary: no correction unless the guard answered
/// "not forbidden"; otherwise the decision under the layout class of `lang`.
pub open spec fn boundary_decision(
    word: Seq<char>,
    forbidden: Result<bool, PlatformError>,
    lang: Result<u16, PlatformError>,
    config: LayoutSwitcherConfig,
) -> DecisionView {
    if guard_allows(forbidden) {
        decision_of(word, class_of(lang_or_neutral(lang)), config.min_autocorrect_len as nat, config.thresholds)
    } else {
        no_correction(word)
    }
}

/// Decides at a word boundary, given the guard's answer for the foreground
/// window and the active layout's language identifier, both taken at commit time.
pub fn decide_at_boundary(
    word: &Vec<char>,
    forbidden: Result<bool, PlatformError>,
    lang: Result<u16, PlatformError>,
    config: &LayoutSwitcherConfig,
) -> (r: CorrectionDecision)
    ensures
        r@ == boundary_decision(word@, forbidden, lang, *config),
{
    match forbidden {
        Ok(false) => {},
        _ => {
            return CorrectionDecision {
                direction: Direction::NoCorrection,
                original: string_of(word),
                converted: string_of(word),
            };
        },
    }
    let id = match lang {
        Ok(id) => id,
        Err(_) => 0,
    };
    decide(word, layout_class(id), config.min_autocorrect_len, &config.thresholds)
}

/// A Latin word that is no plausible English word, and whose transliteration
/// has enough Russian vowels to read as a Cyrillic word, is converted to that
/// transliteration, case kept, when committed under a Latin layout.
pub proof fn lemma_latin_mismatch_converts(word: Seq<char>, min_len: nat, th: Thresholds)
    requires
        !filtered_out(word, min_len),
        accepts_en_to_ru(word, transliterated(word), th),
    ensures
        decision_of(word, LayoutClass::Latin, min_len, th).direction == Direction::EnToRu,
        decision_of(word, LayoutClass::Latin, min_len, th).converted == transliterated(word),
        decision_of(word, LayoutClass::Latin, min_len, th).original == word,
{
}

/// A plausible English word committed under a Latin layout is never
/// converted, and no layout produces a correction in the other layout's
/// direction.
pub proof fn lemma_directions_match_layout(word: Seq<char>, class: LayoutClass, min_len: nat, th: Thresholds)
    ensures
        plausible_english(word, th) ==> decision_of(word, LayoutClass::Latin, min_len, th).direction
            != Direction::EnToRu,
        decision_of(word, LayoutClass::Latin, min_len, th).direction != Direction::RuToEn,
        decision_of(word, LayoutClass::Cyrillic, min_len, th).direction != Direction::EnToRu,
        decision_of(word, LayoutClass::Unknown, min_len, th).direction == Direction::NoCorrection,
{
}

/// Short words, all-uppercase ASCII words and mixed-case ASCII words are never
/// corrected, whatever the layout and the heuristic scores.
pub proof fn lemma_filtered_words_untouched(word: Seq<char>, class: LayoutClass, min_len: nat, th: Thresholds)
    requires
        word.len() < min_len || all_upper_ascii(word) || mixed_case_ascii(word),
    ensures
        decision_of(word, class, min_len, th) == no_correction(word),
{
}

} // verus!

use smart_switcher::heuristics::{
    accepts_en_to_ru_ratio, accepts_ru_to_en_ratio, alphabetic_count, en_vowel_ratio,
    has_strong_english_bigrams, ru_vowel_count, is_all_upper_ascii, is_ascii_word,
    is_mixed_case_ascii, looks_like_english_word, ru_vowel_ratio, to_ascii_lower, Thresholds,
    VowelRatio,
};
use smart_switcher::translit::{map_en_to_ru, transliterate};

#[test]
fn transliteration_keeps_case_and_length() {
    assert_eq!(transliterate("ghbdtn"), "привет");
    assert_eq!(transliterate("Ghbdtn"), "Привет");
    assert_eq!(transliterate("GHBDTN"), "ПРИВЕТ");
    assert_eq!(transliterate(""), "");
    assert_eq!(transliterate("a1 b"), "ф1 и");
    assert_eq!(map_en_to_ru('m'), 'ь');
    assert_eq!(map_en_to_ru('M'), 'Ь');
    assert_eq!(map_en_to_ru(','), ',');
}

#[test]
fn vowel_ratios_are_counted() {
    assert_eq!(en_vowel_ratio("hello"), VowelRatio { vowels: 2, letters: 5 });
    assert_eq!(en_vowel_ratio("Ab1y"), VowelRatio { vowels: 2, letters: 3 });
    assert_eq!(en_vowel_ratio(""), VowelRatio { vowels: 0, letters: 0 });
    assert_eq!(ru_vowel_ratio("привет"), VowelRatio { vowels: 2, letters: 6 });
    assert_eq!(ru_vowel_ratio("руддщ"), VowelRatio { vowels: 1, letters: 5 });
    assert_eq!(ru_vowel_ratio("ЁЖ 1"), VowelRatio { vowels: 1, letters: 2 });
}

#[test]
fn ratio_comparisons_are_exact() {
    let r = VowelRatio { vowels: 3, letters: 20 };
    assert!(!r.below(15));
    assert!(r.below(16));
    assert!(!r.above(15));
    assert!(r.above(14));
    let empty = VowelRatio { vowels: 0, letters: 0 };
    assert!(empty.below(1));
    assert!(!empty.below(0));
    assert!(!empty.above(0));
}

#[test]
fn word_shape_checks() {
    assert!(is_ascii_word("Hello"));
    assert!(!is_ascii_word(""));
    assert!(!is_ascii_word("he llo"));
    assert!(!is_ascii_word("привет"));
    assert!(is_all_upper_ascii(&"NASA".chars().collect()));
    assert!(!is_all_upper_ascii(&"NaSA".chars().collect()));
    assert!(!is_all_upper_ascii(&"123".chars().collect()));
    assert!(is_mixed_case_ascii(&"Hello".chars().collect()));
    assert!(!is_mixed_case_ascii(&"hello".chars().collect()));
    assert!(!is_mixed_case_ascii(&"HELLO".chars().collect()));
    assert_eq!(to_ascii_lower('Q'), 'q');
    assert_eq!(to_ascii_lower('й'), 'й');
}

#[test]
fn strong_bigrams_ignore_case() {
    assert!(has_strong_english_bigrams("thanks"));
    assert!(has_strong_english_bigrams("BACK"));
    assert!(has_strong_english_bigrams("xQu"));
    assert!(!has_strong_english_bigrams("ghbdtn"));
    assert!(!has_strong_english_bigrams("t"));
    assert!(!has_strong_english_bigrams(""));
}

#[test]
fn plausible_english_follows_band_or_bigram() {
    // in the vowel band
    assert!(looks_like_english_word("hello"));
    // out of the band, but with a strong bigram
    assert!(looks_like_english_word("strngth"));
    // out of the band, no bigram
    assert!(!looks_like_english_word("ghbdtn"));
    // above the band
    assert!(!looks_like_english_word("aeiou"));
    assert!(!looks_like_english_word("hi there"));
}

#[test]
fn standard_thresholds_values() {
    let t = Thresholds::standard();
    assert_eq!(t.en_vowel_min_pct, 15);
    assert_eq!(t.en_vowel_max_pct, 70);
    assert_eq!(t.ru_vowel_min_pct, 20);
    assert_eq!(t.ru_garbage_pct, 25);
    assert_eq!(t.ru_garbage_bigram_pct, 45);
}

#[test]
fn counts_and_ratio_tests() {
    assert_eq!(ru_vowel_count("привет"), 2);
    assert_eq!(alphabetic_count("привет, 1"), 6);
    let th = Thresholds::standard();
    assert!(accepts_en_to_ru_ratio("ghbdtn", &VowelRatio { vowels: 2, letters: 6 }, &th));
    assert!(!accepts_en_to_ru_ratio("ghbdtn", &VowelRatio { vowels: 1, letters: 6 }, &th));
    assert!(accepts_ru_to_en_ratio("hello", &VowelRatio { vowels: 1, letters: 5 }, &th));
    assert!(!accepts_ru_to_en_ratio("hello", &VowelRatio { vowels: 2, letters: 5 }, &th));
    assert!(accepts_ru_to_en_ratio("thanks", &VowelRatio { vowels: 2, letters: 6 }, &th));
}

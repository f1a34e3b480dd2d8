use smart_switcher::config::LayoutSwitcherConfig;
use smart_switcher::decision::{decide, decide_at_boundary, decide_given, Direction};
use smart_switcher::engine::{KeyOutcome, WordEngine};
use smart_switcher::errors::PlatformError;
use smart_switcher::events::{hook_event, KeyboardEvent, WM_KEYDOWN, WM_KEYUP, WM_SYSKEYDOWN};
use smart_switcher::heuristics::Thresholds;
use smart_switcher::lang::{is_cyrillic_char, layout_class, lo_word, probe_is_cyrillic, LayoutClass};

fn down(vk: u32) -> KeyboardEvent {
    KeyboardEvent { vk_code: vk, scan_code: 0, flags: 0, is_key_down: true }
}

fn up(vk: u32) -> KeyboardEvent {
    KeyboardEvent { vk_code: vk, scan_code: 0, flags: 0, is_key_down: false }
}

fn type_word(engine: &mut WordEngine, word: &str) {
    for c in word.chars() {
        let vk = c.to_ascii_uppercase() as u32;
        assert_eq!(engine.on_key_event(&down(vk)), KeyOutcome::Ignored);
        engine.on_key_event(&up(vk));
    }
}

fn chars(s: &str) -> Vec<char> {
    s.chars().collect()
}

#[test]
fn space_commits_buffered_word() {
    let mut e = WordEngine::new(&LayoutSwitcherConfig::default());
    type_word(&mut e, "ghbdtn");
    assert_eq!(e.word(), &chars("ghbdtn"));
    assert_eq!(e.on_key_event(&down(0x20)), KeyOutcome::WordCommitted(chars("ghbdtn")));
    assert!(e.word().is_empty());
}

#[test]
fn short_words_are_not_committed() {
    let mut e = WordEngine::new(&LayoutSwitcherConfig::default());
    type_word(&mut e, "ab");
    assert_eq!(e.on_key_event(&down(0x20)), KeyOutcome::Ignored);
    assert!(e.word().is_empty());
}

#[test]
fn backspace_enter_and_other_keys_edit_the_buffer() {
    let mut e = WordEngine::new(&LayoutSwitcherConfig::default());
    type_word(&mut e, "abc");
    e.on_key_event(&down(0x08));
    assert_eq!(e.word(), &chars("ab"));
    e.on_key_event(&down(0x08));
    e.on_key_event(&down(0x08));
    e.on_key_event(&down(0x08));
    assert!(e.word().is_empty());
    type_word(&mut e, "abc");
    e.on_key_event(&down(0x0D));
    assert!(e.word().is_empty());
    type_word(&mut e, "abc");
    e.on_key_event(&down(0x31));
    assert!(e.word().is_empty());
}

#[test]
fn shift_gives_uppercase_and_alt_chords_are_not_words() {
    let mut e = WordEngine::new(&LayoutSwitcherConfig::default());
    e.on_key_event(&down(0xA0));
    e.on_key_event(&down(0x47));
    e.on_key_event(&up(0xA0));
    e.on_key_event(&down(0x48));
    assert_eq!(e.word(), &chars("Gh"));
    e.on_key_event(&down(0xA4));
    e.on_key_event(&down(0x46));
    assert_eq!(e.word(), &chars("Gh"));
}

#[test]
fn hotkey_fires_once_per_press() {
    let mut e = WordEngine::new(&LayoutSwitcherConfig::default());
    assert_eq!(e.on_key_event(&down(0xA4)), KeyOutcome::Ignored);
    assert_eq!(e.on_key_event(&down(0xA0)), KeyOutcome::HotkeyObserved);
    assert_eq!(e.on_key_event(&down(0xA0)), KeyOutcome::Ignored);
    assert_eq!(e.on_key_event(&up(0xA0)), KeyOutcome::Ignored);
    assert_eq!(e.on_key_event(&down(0xA0)), KeyOutcome::HotkeyObserved);
}

#[test]
fn unsupported_hotkey_leaves_engine_inert() {
    let mut cfg = LayoutSwitcherConfig::default();
    cfg.hotkey = "ctrl+shift".to_string();
    let mut e = WordEngine::new(&cfg);
    type_word(&mut e, "ghbdtn");
    assert!(e.word().is_empty());
    let mut cfg = LayoutSwitcherConfig::default();
    cfg.hotkey = "ALT+Shift".to_string();
    let mut e = WordEngine::new(&cfg);
    type_word(&mut e, "abc");
    assert_eq!(e.word(), &chars("abc"));
}

#[test]
fn feeding_a_burst_keeps_event_order() {
    let mut e = WordEngine::new(&LayoutSwitcherConfig::default());
    let evs = vec![down(0x41), up(0x41), down(0x42), down(0x43), down(0x20), down(0x44), down(0x45), down(0x46), down(0x20)];
    let outs = e.feed_events(&evs);
    assert_eq!(outs.len(), evs.len());
    assert_eq!(outs[4], KeyOutcome::WordCommitted(chars("abc")));
    assert_eq!(outs[8], KeyOutcome::WordCommitted(chars("def")));
    let mut f = WordEngine::new(&LayoutSwitcherConfig::default());
    let reversed: Vec<KeyboardEvent> = vec![down(0x43), down(0x42), down(0x41), down(0x20)];
    assert_eq!(f.feed_events(&reversed)[3], KeyOutcome::WordCommitted(chars("cba")));
}

#[test]
fn hook_messages_become_events() {
    assert_eq!(hook_event(0, WM_KEYDOWN, 0x41, 30, 0), Some(KeyboardEvent { vk_code: 0x41, scan_code: 30, flags: 0, is_key_down: true }));
    assert_eq!(hook_event(0, WM_SYSKEYDOWN, 0xA4, 56, 32).map(|e| e.is_key_down), Some(true));
    assert_eq!(hook_event(0, WM_KEYUP, 0x41, 30, 128).map(|e| e.is_key_down), Some(false));
    assert_eq!(hook_event(0, 0x0200, 0x41, 30, 0), None);
    assert_eq!(hook_event(-1, WM_KEYDOWN, 0x41, 30, 0), None);
}

#[test]
fn layout_classes() {
    assert_eq!(layout_class(0x0419), LayoutClass::Cyrillic);
    assert_eq!(layout_class(0x0422), LayoutClass::Cyrillic);
    assert_eq!(layout_class(0x0409), LayoutClass::Latin);
    assert_eq!(layout_class(0x0407), LayoutClass::Latin);
    assert_eq!(layout_class(0), LayoutClass::Unknown);
    assert_eq!(layout_class(0x0408), LayoutClass::Unknown);
    assert_eq!(layout_class(0x0401), LayoutClass::Unknown);
    assert_eq!(layout_class(0x040C), LayoutClass::Latin);
    assert_eq!(lo_word(0xF0C1_0419), 0x0419);
    assert_eq!(lo_word(0x0409), 0x0409);
    assert!(probe_is_cyrillic(1, 0x043F));
    assert!(!probe_is_cyrillic(1, 0x0067));
    assert!(!probe_is_cyrillic(0, 0x043F));
    assert!(is_cyrillic_char('п'));
    assert!(is_cyrillic_char('Ё'));
    assert!(!is_cyrillic_char('g'));
    assert!(!is_cyrillic_char('\u{0500}'));
}

#[test]
fn latin_mismatch_is_converted() {
    let d = decide(&chars("ghbdtn"), LayoutClass::Latin, 5, &Thresholds::standard());
    assert_eq!(d.direction, Direction::EnToRu);
    assert_eq!(d.original, "ghbdtn");
    assert_eq!(d.converted, "привет");
}

#[test]
fn english_under_cyrillic_is_restored() {
    let d = decide(&chars("hello"), LayoutClass::Cyrillic, 5, &Thresholds::standard());
    assert_eq!(d.direction, Direction::RuToEn);
    assert_eq!(d.original, "руддщ");
    assert_eq!(d.converted, "hello");
    let d = decide(&chars("thanks"), LayoutClass::Cyrillic, 5, &Thresholds::standard());
    assert_eq!(d.direction, Direction::RuToEn);
    assert_eq!(d.converted, "thanks");
}

#[test]
fn plausible_english_keeps_its_direction() {
    for w in ["hello", "thanks", "strength", "script"] {
        let d = decide(&chars(w), LayoutClass::Latin, 5, &Thresholds::standard());
        assert_eq!(d.direction, Direction::NoCorrection, "{}", w);
    }
    let d = decide(&chars("ghbdtn"), LayoutClass::Cyrillic, 5, &Thresholds::standard());
    assert_eq!(d.direction, Direction::NoCorrection);
    let d = decide(&chars("ghbdtn"), LayoutClass::Unknown, 5, &Thresholds::standard());
    assert_eq!(d.direction, Direction::NoCorrection);
}

#[test]
fn filtered_words_are_never_corrected() {
    let th = Thresholds::standard();
    assert_eq!(decide(&chars("ghbd"), LayoutClass::Latin, 5, &th).direction, Direction::NoCorrection);
    assert_eq!(decide(&chars("GHBDTN"), LayoutClass::Latin, 5, &th).direction, Direction::NoCorrection);
    assert_eq!(decide(&chars("Ghbdtn"), LayoutClass::Latin, 5, &th).direction, Direction::NoCorrection);
    assert_eq!(decide(&chars("HELLO"), LayoutClass::Cyrillic, 5, &th).direction, Direction::NoCorrection);
    assert_eq!(decide(&chars("ghbd"), LayoutClass::Latin, 4, &th).direction, Direction::EnToRu);
}

#[test]
fn guard_failure_at_boundary_means_no_correction() {
    let cfg = LayoutSwitcherConfig::default();
    let w = chars("ghbdtn");
    assert_eq!(decide_at_boundary(&w, Ok(false), Ok(0x0409), &cfg).direction, Direction::EnToRu);
    assert_eq!(decide_at_boundary(&w, Ok(true), Ok(0x0409), &cfg).direction, Direction::NoCorrection);
    assert_eq!(decide_at_boundary(&w, Err(PlatformError::OsQueryFailure), Ok(0x0409), &cfg).direction, Direction::NoCorrection);
    assert_eq!(decide_at_boundary(&w, Ok(false), Err(PlatformError::OsQueryFailure), &cfg).direction, Direction::NoCorrection);
    assert_eq!(decide_at_boundary(&chars("hello"), Ok(false), Ok(0x0419), &cfg).direction, Direction::RuToEn);
}

#[test]
fn decision_given_letter_count() {
    let th = Thresholds::standard();
    let d = decide_given(&chars("ghbdtn"), LayoutClass::Latin, 5, &th, 6);
    assert_eq!(d.direction, Direction::EnToRu);
    assert_eq!(d.converted, "привет");
    // two vowels among eleven letters is under twenty percent
    let d = decide_given(&chars("ghbdtn"), LayoutClass::Latin, 5, &th, 11);
    assert_eq!(d.direction, Direction::NoCorrection);
    let d = decide_given(&chars("hello"), LayoutClass::Cyrillic, 5, &th, 5);
    assert_eq!(d.direction, Direction::RuToEn);
    assert_eq!(d.converted, "hello");
}

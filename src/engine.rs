//! The word engine: consumes key events in order, keeps the keys of the word
//! being typed, and reports when a word is committed for evaluation.
//!
//! Only key presses act on the buffer; releases update modifier state. While
//! Alt is held no key reaches the buffer. Space commits the word; Enter only
//! clears it, so that line breaks are never rewritten; any other non-letter key
//! clears it too.
use vstd::prelude::*;

use crate::config::LayoutSwitcherConfig;
use crate::events::{
    is_alt_vk, is_alt_vk_spec, is_letter_vk, is_letter_vk_spec, is_shift_vk, is_shift_vk_spec,
    vk_letter, vk_to_letter, KeyboardEvent, VK_BACK, VK_RETURN, VK_SPACE,
};
use crate::text::{lower_of, lowercase, same_text};

verus! {

/// The engine as a value: modifier state, the buffered keys, and its settings.
pub struct EngineView {
    pub alt_down: bool,
    pub shift_down: bool,
    pub hotkey_fired: bool,
    pub word: Seq<char>,
    pub hotkey_supported: bool,
    pub auto_detect: bool,
    pub detect_threshold: nat,
}

pub enum OutcomeView {
    Ignored,
    HotkeyObserved,
    WordCommitted(Seq<char>),
}

/// What one key event produced.
#[derive(Debug, PartialEq, Eq)]
pub enum KeyOutcome {
    Ignored,
    /// The layout-switch chord went down; reported once per press.
    HotkeyObserved,
    /// A word long enough to evaluate ended with Space.
    WordCommitted(Vec<char>),
}

impl View for KeyOutcome {
    type V = OutcomeView;

    open spec fn view(&self) -> OutcomeView {
        match self {
            KeyOutcome::Ignored => OutcomeView::Ignored,
            KeyOutcome::HotkeyObserved => OutcomeView::HotkeyObserved,
            KeyOutcome::WordCommitted(w) => OutcomeView::WordCommitted(w@),
        }
    }
}

/// The effect of a pressed non-modifier key on the buffer, and what it reports.
pub open spec fn buffer_step(m: EngineView, vk: u32) -> (EngineView, OutcomeView) {
    if vk == VK_BACK {
        (EngineView { word: if m.word.len() > 0 { m.word.drop_last() } else { m.word }, ..m }, OutcomeView::Ignored)
    } else if vk == VK_SPACE {
        (
            EngineView { word: Seq::empty(), ..m },
            if m.word.len() >= m.detect_threshold {
                OutcomeView::WordCommitted(m.word)
            } else {
                OutcomeView::Ignored
            },
        )
    } else if vk == VK_RETURN {
        (EngineView { word: Seq::empty(), ..m }, OutcomeView::Ignored)
    } else if is_letter_vk_spec(vk) {
        (EngineView { word: m.word.push(vk_letter(vk, m.shift_down)), ..m }, OutcomeView::Ignored)
    } else {
        (EngineView { word: Seq::empty(), ..m }, OutcomeView::Ignored)
    }
}

/// One step of the engine on one key event.
pub open spec fn engine_step(m: EngineView, ev: KeyboardEvent) -> (EngineView, OutcomeView) {
    if !m.hotkey_supported {
        (m, OutcomeView::Ignored)
    } else {
        let alt = if is_alt_vk_spec(ev.vk_code) { ev.is_key_down } else { m.alt_down };
        let shift = if is_shift_vk_spec(ev.vk_code) { ev.is_key_down } else { m.shift_down };
        let m1 = EngineView { alt_down: alt, shift_down: shift, ..m };
        if !ev.is_key_down {
            (EngineView { hotkey_fired: if alt && shift { m.hotkey_fired } else { false }, ..m1 }, OutcomeView::Ignored)
        } else if alt && shift && !m.hotkey_fired {
            (EngineView { hotkey_fired: true, ..m1 }, OutcomeView::HotkeyObserved)
        } else if !m.auto_detect || alt {
            (m1, OutcomeView::Ignored)
        } else {
            buffer_step(m1, ev.vk_code)
        }
    }
}

/// The engine after the events `evs`, taken in order, and what each reported.
pub open spec fn run(m: EngineView, evs: Seq<KeyboardEvent>) -> (EngineView, Seq<OutcomeView>)
    decreases evs.len(),
{
    if evs.len() == 0 {
        (m, Seq::empty())
    } else {
        let before = run(m, evs.drop_last());
        let after = engine_step(before.0, evs.last());
        (after.0, before.1.push(after.1))
    }
}

/// Events are processed strictly in the order given: feeding `a` and then `b`
/// ends in the same state as feeding `a` followed by `b` at once, and the
/// reports of the whole are those of `a` followed by those of `b`.
pub proof fn lemma_run_in_order(m: EngineView, a: Seq<KeyboardEvent>, b: Seq<KeyboardEvent>)
    ensures
        run(m, a + b).0 == run(run(m, a).0, b).0,
        run(m, a + b).1 == run(m, a).1 + run(run(m, a).0, b).1,
    decreases b.len(),
{
    if b.len() == 0 {
        assert(a + b =~= a);
        assert(run(m, a).1 + Seq::<OutcomeView>::empty() =~= run(m, a).1);
    } else {
        lemma_run_in_order(m, a, b.drop_last());
        assert((a + b).drop_last() =~= a + b.drop_last());
        assert((a + b).last() == b.last());
        let mid = run(m, a);
        let rest = run(mid.0, b.drop_last());
        let last = engine_step(rest.0, b.last());
        assert(mid.1 + rest.1.push(last.1) =~= (mid.1 + rest.1).push(last.1));
    }
}

/// The word engine.
pub struct WordEngine {
    alt_down: bool,
    shift_down: bool,
    hotkey_fired: bool,
    word: Vec<char>,
    hotkey_supported: bool,
    auto_detect: bool,
    detect_threshold: u8,
}

impl View for WordEngine {
    type V = EngineView;

    closed spec fn view(&self) -> EngineView {
        EngineView {
            alt_down: self.alt_down,
            shift_down: self.shift_down,
            hotkey_fired: self.hotkey_fired,
            word: self.word@,
            hotkey_supported: self.hotkey_supported,
            auto_detect: self.auto_detect,
            detect_threshold: self.detect_threshold as nat,
        }
    }
}

/// Whether a case-folded hotkey description names the one supported chord.
pub fn is_supported_hotkey_folded(folded: &str) -> (r: bool)
    ensures
        r == (folded@ == "alt+shift"@),
{
    same_text(folded, "alt+shift")
}

impl WordEngine {
    /// An idle engine with the given settings.
    pub fn with_settings(hotkey_supported: bool, auto_detect: bool, detect_threshold: u8) -> (r: Self)
        ensures
            r@ == (EngineView {
                alt_down: false,
                shift_down: false,
                hotkey_fired: false,
                word: Seq::empty(),
                hotkey_supported,
                auto_detect,
                detect_threshold: detect_threshold as nat,
            }),
    {
        WordEngine {
            alt_down: false,
            shift_down: false,
            hotkey_fired: false,
            word: Vec::new(),
            hotkey_supported,
            auto_detect,
            detect_threshold,
        }
    }

    /// An idle engine configured from `config`. The hotkey is compared with
    /// "alt+shift" case-insensitively; with any other hotkey the engine stays inert.
    pub fn new(config: &LayoutSwitcherConfig) -> (r: Self)
        ensures
            r@ == (EngineView {
                alt_down: false,
                shift_down: false,
                hotkey_fired: false,
                word: Seq::empty(),
                hotkey_supported: lower_of(config.hotkey@) == "alt+shift"@,
                auto_detect: config.auto_detect,
                detect_threshold: config.detect_threshold as nat,
            }),
    {
        let folded = lowercase(config.hotkey.as_str());
        let supported = is_supported_hotkey_folded(folded.as_str());
        WordEngine::with_settings(supported, config.auto_detect, config.detect_threshold)
    }

    /// The keys buffered for the current word.
    pub fn word(&self) -> (r: &Vec<char>)
        ensures
            r@ == self@.word,
    {
        &self.word
    }

    /// Drops the buffered keys, keeping modifier state; used when events may
    /// have been lost.
    pub fn reset_word(&mut self)
        ensures
            final(self)@ == (EngineView { word: Seq::empty(), ..old(self)@ }),
    {
        self.word.clear();
    }

    fn buffer_key(&mut self, vk: u32) -> (r: KeyOutcome)
        ensures
            (final(self)@, r@) == buffer_step(old(self)@, vk),
    {
        if vk == VK_BACK {
            self.word.pop();
            KeyOutcome::Ignored
        } else if vk == VK_SPACE {
            let mut word: Vec<char> = Vec::new();
            std::mem::swap(&mut word, &mut self.word);
            if word.len() >= self.detect_threshold as usize {
                KeyOutcome::WordCommitted(word)
            } else {
                KeyOutcome::Ignored
            }
        } else if vk == VK_RETURN {
            self.word.clear();
            KeyOutcome::Ignored
        } else if is_letter_vk(vk) {
            let c = vk_to_letter(vk, self.shift_down);
            self.word.push(c);
            KeyOutcome::Ignored
        } else {
            self.word.clear();
            KeyOutcome::Ignored
        }
    }

    /// Processes one key event.
    pub fn on_key_event(&mut self, ev: &KeyboardEvent) -> (r: KeyOutcome)
        ensures
            (final(self)@, r@) == engine_step(old(self)@, *ev),
    {
        if !self.hotkey_supported {
            return KeyOutcome::Ignored;
        }
        if is_alt_vk(ev.vk_code) {
            self.alt_down = ev.is_key_down;
        }
        if is_shift_vk(ev.vk_code) {
            self.shift_down = ev.is_key_down;
        }
        if !ev.is_key_down {
            if !(self.alt_down && self.shift_down) {
                self.hotkey_fired = false;
            }
            return KeyOutcome::Ignored;
        }
        if self.alt_down && self.shift_down && !self.hotkey_fired {
            self.hotkey_fired = true;
            return KeyOutcome::HotkeyObserved;
        }
        if !self.auto_detect || self.alt_down {
            return KeyOutcome::Ignored;
        }
        self.buffer_key(ev.vk_code)
    }

    /// Processes `events` in order and returns what each produced.
    pub fn feed_events(&mut self, events: &Vec<KeyboardEvent>) -> (r: Vec<KeyOutcome>)
        ensures
            final(self)@ == run(old(self)@, events@).0,
            r@.map_values(|o: KeyOutcome| o@) == run(old(self)@, events@).1,
    {
        let mut outs: Vec<KeyOutcome> = Vec::new();
        let mut i: usize = 0;
        while i < events.len()
            invariant
                i <= events.len(),
                self@ == run(old(self)@, events@.subrange(0, i as int)).0,
                outs@.map_values(|o: KeyOutcome| o@) == run(old(self)@, events@.subrange(0, i as int)).1,
            decreases events.len() - i,
        {
            let o = self.on_key_event(&events[i]);
            let ghost before = outs@;
            outs.push(o);
            proof {
                assert(events@.subrange(0, i + 1).drop_last() =~= events@.subrange(0, i as int));
                assert(outs@.map_values(|o: KeyOutcome| o@) =~= before.map_values(|o: KeyOutcome| o@).push(o@));
            }
            i = i + 1;
        }
        assert(events@.subrange(0, events.len() as int) =~= events@);
        outs
    }
}

} // verus!

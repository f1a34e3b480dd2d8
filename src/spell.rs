//! The spell-checking module's input side: it gathers the text typed up to
//! Enter and hands it over for a remote check. The request itself is made by
//! the driver.
use vstd::prelude::*;

use crate::config::SpellCheckerConfig;
use crate::errors::PlatformError;
use crate::events::{
    is_alt_vk, is_alt_vk_spec, is_letter_vk, is_letter_vk_spec, is_shift_vk, is_shift_vk_spec,
    vk_letter, vk_to_letter, KeyboardEvent, VK_BACK, VK_RETURN, VK_SPACE,
};
use crate::lang::LANG_ID_RU;
use crate::text::{chars_of, copy_range, lower_of, lowercase, same_text, string_of};
use crate::translit::{key_to_ru, map_en_to_ru};

verus! {

/// `s` without its leading spaces.
pub open spec fn trim_start_spaces(s: Seq<char>) -> Seq<char>
    decreases s.len(),
{
    if s.len() > 0 && s[0] == ' ' {
        trim_start_spaces(s.drop_first())
    } else {
        s
    }
}

/// `s` without its trailing occurrences of `c`.
pub open spec fn trim_end_char(s: Seq<char>, c: char) -> Seq<char>
    decreases s.len(),
{
    if s.len() > 0 && s.last() == c {
        trim_end_char(s.drop_last(), c)
    } else {
        s
    }
}

/// `s` without leading and trailing spaces.
pub open spec fn trim_spaces(s: Seq<char>) -> Seq<char> {
    trim_end_char(trim_start_spaces(s), ' ')
}

fn trim_start_index(s: &Vec<char>) -> (r: usize)
    ensures
        r <= s@.len(),
        trim_start_spaces(s@) == s@.subrange(r as int, s@.len() as int),
{
    let mut i: usize = 0;
    assert(s@.subrange(0, s@.len() as int) =~= s@);
    while i < s.len() && s[i] == ' '
        invariant
            i <= s@.len(),
            trim_start_spaces(s@) == trim_start_spaces(s@.subrange(i as int, s@.len() as int)),
        decreases s.len() - i,
    {
        assert(s@.subrange(i as int, s@.len() as int).drop_first() =~= s@.subrange(i + 1, s@.len() as int));
        i = i + 1;
    }
    i
}

fn trim_end_index(s: &Vec<char>, from: usize, c: char) -> (r: usize)
    requires
        from <= s@.len(),
    ensures
        from <= r <= s@.len(),
        trim_end_char(s@.subrange(from as int, s@.len() as int), c) == s@.subrange(from as int, r as int),
{
    let mut j: usize = s.len();
    while j > from && s[j - 1] == c
        invariant
            from <= j <= s@.len(),
            trim_end_char(s@.subrange(from as int, s@.len() as int), c) == trim_end_char(
                s@.subrange(from as int, j as int),
                c,
            ),
        decreases j,
    {
        assert(s@.subrange(from as int, j as int).drop_last() =~= s@.subrange(from as int, j - 1));
        j = j - 1;
    }
    j
}

/// The text between the first and the last non-space character.
pub fn trimmed_text(s: &Vec<char>) -> (r: Vec<char>)
    ensures
        r@ == trim_spaces(s@),
{
    let start = trim_start_index(s);
    let end = trim_end_index(s, start, ' ');
    copy_range(s, start, end)
}

/// The address of the check endpoint under `base_url`, whose trailing
/// slashes are dropped first.
pub fn check_endpoint(base_url: &str) -> (r: String)
    ensures
        r@ == trim_end_char(base_url@, '/') + "/v2/check"@,
{
    let cs = chars_of(base_url);
    let end = trim_end_index(&cs, 0, '/');
    assert(cs@.subrange(0, cs@.len() as int) =~= cs@);
    let base = string_of(&copy_range(&cs, 0, end));
    base.concat("/v2/check")
}

/// Whether a case-folded service name is the one supported service.
pub fn is_languagetool_folded(folded: &str) -> (r: bool)
    ensures
        r == (folded@ == "languagetool"@),
{
    same_text(folded, "languagetool")
}

/// Whether a committed text is sent for checking: the context must be known
/// not to be forbidden, and the configured service must be LanguageTool (any case).
pub fn should_check(forbidden: Result<bool, PlatformError>, config: &SpellCheckerConfig) -> (r: bool)
    ensures
        r == (forbidden == Ok::<bool, PlatformError>(false) && lower_of(config.api@) == "languagetool"@),
{
    match forbidden {
        Ok(false) => {
            let folded = lowercase(config.api.as_str());
            is_languagetool_folded(folded.as_str())
        },
        _ => false,
    }
}

pub struct SpellView {
    pub alt_down: bool,
    pub shift_down: bool,
    pub buffer: Seq<char>,
}

/// The character a letter key types under the layout `lang_id`.
pub open spec fn typed_char(vk: u32, shift: bool, lang_id: u16) -> char {
    if lang_id == LANG_ID_RU {
        key_to_ru(vk_letter(vk, shift))
    } else {
        vk_letter(vk, shift)
    }
}

/// One step of the spell buffer on a key event, with the active layout's
/// language identifier; reports the trimmed text when Enter commits some.
pub open spec fn spell_step(m: SpellView, ev: KeyboardEvent, lang_id: u16) -> (SpellView, Option<Seq<char>>) {
    let alt = if is_alt_vk_spec(ev.vk_code) { ev.is_key_down } else { m.alt_down };
    let shift = if is_shift_vk_spec(ev.vk_code) { ev.is_key_down } else { m.shift_down };
    let m1 = SpellView { alt_down: alt, shift_down: shift, ..m };
    let vk = ev.vk_code;
    if !ev.is_key_down || alt {
        (m1, None)
    } else if vk == VK_BACK {
        (SpellView { buffer: if m.buffer.len() > 0 { m.buffer.drop_last() } else { m.buffer }, ..m1 }, None)
    } else if vk == VK_SPACE {
        (SpellView { buffer: if m.buffer.len() > 0 && m.buffer.last() == ' ' { m.buffer } else { m.buffer.push(' ') }, ..m1 }, None)
    } else if vk == VK_RETURN {
        (
            SpellView { buffer: Seq::empty(), ..m1 },
            if trim_spaces(m.buffer).len() == 0 { None } else { Some(trim_spaces(m.buffer)) },
        )
    } else if is_letter_vk_spec(vk) {
        (SpellView { buffer: m.buffer.push(typed_char(vk, shift, lang_id)), ..m1 }, None)
    } else {
        (m1, None)
    }
}

/// The text typed since the last Enter, as the spell checker sees it.
pub struct SpellBuffer {
    alt_down: bool,
    shift_down: bool,
    buffer: Vec<char>,
}

impl View for SpellBuffer {
    type V = SpellView;

    closed spec fn view(&self) -> SpellView {
        SpellView { alt_down: self.alt_down, shift_down: self.shift_down, buffer: self.buffer@ }
    }
}

impl SpellBuffer {
    pub fn new() -> (r: Self)
        ensures
            r@ == (SpellView { alt_down: false, shift_down: false, buffer: Seq::empty() }),
    {
        SpellBuffer { alt_down: false, shift_down: false, buffer: Vec::new() }
    }

    /// Processes one key event; `lang_id` is the active layout at that moment.
    pub fn on_key_event(&mut self, ev: &KeyboardEvent, lang_id: u16) -> (r: Option<String>)
        ensures
            final(self)@ == spell_step(old(self)@, *ev, lang_id).0,
            r matches Some(t) ==> spell_step(old(self)@, *ev, lang_id).1 == Some(t@),
            r is None ==> spell_step(old(self)@, *ev, lang_id).1 is None,
    {
        if is_alt_vk(ev.vk_code) {
            self.alt_down = ev.is_key_down;
        }
        if is_shift_vk(ev.vk_code) {
            self.shift_down = ev.is_key_down;
        }
        if !ev.is_key_down || self.alt_down {
            return None;
        }
        let vk = ev.vk_code;
        if vk == VK_BACK {
            self.buffer.pop();
            None
        } else if vk == VK_SPACE {
            let n = self.buffer.len();
            if !(n > 0 && self.buffer[n - 1] == ' ') {
                self.buffer.push(' ');
            }
            None
        } else if vk == VK_RETURN {
            let commit = trimmed_text(&self.buffer);
            self.buffer.clear();
            if commit.len() == 0 {
                None
            } else {
                Some(string_of(&commit))
            }
        } else if is_letter_vk(vk) {
            let base = vk_to_letter(vk, self.shift_down);
            let ch = if lang_id == LANG_ID_RU {
                map_en_to_ru(base)
            } else {
                base
            };
            self.buffer.push(ch);
            None
        } else {
            None
        }
    }
}

/// The spell-checking module and its configuration.
pub struct SpellCheckerModule {
    pub config: SpellCheckerConfig,
}

impl SpellCheckerModule {
    pub fn new(config: SpellCheckerConfig) -> (r: Self)
        ensures
            r.config == config,
    {
        SpellCheckerModule { config }
    }
}

} // verus!

//! Synthetic keyboard input: the key records that erase text and that type
//! text, each key as a press followed by a release.
use vstd::prelude::*;

use crate::events::VK_BACK;
use crate::text::chars_of;

verus! {

pub const KEYEVENTF_KEYUP: u32 = 0x0002;
pub const KEYEVENTF_UNICODE: u32 = 0x0004;

/// One synthetic key record: virtual key, scan code (a UTF-16 unit for
/// Unicode input) and flags.
#[derive(Clone, Copy, Debug, PartialEq, Eq, Structural)]
pub struct KeyInput {
    pub vk: u16,
    pub scan: u16,
    pub flags: u32,
}

pub open spec fn backspace_press() -> KeyInput {
    KeyInput { vk: VK_BACK as u16, scan: 0, flags: 0 }
}

pub open spec fn backspace_release() -> KeyInput {
    KeyInput { vk: VK_BACK as u16, scan: 0, flags: KEYEVENTF_KEYUP }
}

pub open spec fn unit_press(u: u16) -> KeyInput {
    KeyInput { vk: 0, scan: u, flags: KEYEVENTF_UNICODE }
}

pub open spec fn unit_release(u: u16) -> KeyInput {
    KeyInput { vk: 0, scan: u, flags: KEYEVENTF_UNICODE | KEYEVENTF_KEYUP }
}

/// `count` Backspace presses, each followed by its release.
pub fn backspace_inputs(count: usize) -> (r: Vec<KeyInput>)
    ensures
        r@.len() == 2 * count,
        forall|i: int| 0 <= i < count ==> #[trigger] r@[2 * i] == backspace_press() && r@[2 * i + 1] == backspace_release(),
{
    let mut r: Vec<KeyInput> = Vec::new();
    let mut i: usize = 0;
    while i < count
        invariant
            i <= count,
            r@.len() == 2 * i,
            forall|k: int| 0 <= k < i ==> #[trigger] r@[2 * k] == backspace_press() && r@[2 * k + 1] == backspace_release(),
        decreases count - i,
    {
        r.push(KeyInput { vk: VK_BACK as u16, scan: 0, flags: 0 });
        r.push(KeyInput { vk: VK_BACK as u16, scan: 0, flags: KEYEVENTF_KEYUP });
        i = i + 1;
    }
    r
}

/// The UTF-16 encoding of one character.
pub open spec fn utf16_of_char(c: char) -> Seq<u16> {
    let v = c as u32;
    if v < 0x10000 {
        seq![v as u16]
    } else {
        seq![(0xD800 + (v - 0x10000) / 0x400) as u16, (0xDC00 + (v - 0x10000) % 0x400) as u16]
    }
}

/// The UTF-16 encoding of a character sequence.
pub open spec fn utf16_of(s: Seq<char>) -> Seq<u16>
    decreases s.len(),
{
    if s.len() == 0 {
        Seq::empty()
    } else {
        utf16_of(s.drop_last()) + utf16_of_char(s.last())
    }
}

/// The UTF-16 code units of `text`.
pub fn encode_utf16(text: &str) -> (r: Vec<u16>)
    ensures
        r@ == utf16_of(text@),
{
    let cs = chars_of(text);
    let mut r: Vec<u16> = Vec::new();
    let mut i: usize = 0;
    while i < cs.len()
        invariant
            i <= cs.len(),
            cs@ == text@,
            r@ == utf16_of(cs@.subrange(0, i as int)),
        decreases cs.len() - i,
    {
        let c = cs[i];
        let v = c as u32;
        proof {
            assert(cs@.subrange(0, i + 1).drop_last() =~= cs@.subrange(0, i as int));
        }
        if v < 0x10000 {
            r.push(v as u16);
        } else {
            let w = v - 0x10000;
            r.push((0xD800 + w / 0x400) as u16);
            r.push((0xDC00 + w % 0x400) as u16);
        }
        i = i + 1;
        assert(r@ =~= utf16_of(cs@.subrange(0, i as int)));
    }
    assert(cs@.subrange(0, cs.len() as int) =~= cs@);
    r
}

/// Each UTF-16 unit as a Unicode press followed by its release.
pub fn unicode_inputs(units: &Vec<u16>) -> (r: Vec<KeyInput>)
    ensures
        r@.len() == 2 * units@.len(),
        forall|i: int| 0 <= i < units@.len() ==> #[trigger] r@[2 * i] == unit_press(units@[i]) && r@[2 * i + 1] == unit_release(units@[i]),
{
    let mut r: Vec<KeyInput> = Vec::new();
    let mut i: usize = 0;
    while i < units.len()
        invariant
            i <= units.len(),
            r@.len() == 2 * i,
            forall|k: int| 0 <= k < i ==> #[trigger] r@[2 * k] == unit_press(units@[k]) && r@[2 * k + 1] == unit_release(units@[k]),
        decreases units.len() - i,
    {
        let u = units[i];
        r.push(KeyInput { vk: 0, scan: u, flags: KEYEVENTF_UNICODE });
        r.push(KeyInput { vk: 0, scan: u, flags: KEYEVENTF_UNICODE | KEYEVENTF_KEYUP });
        i = i + 1;
    }
    r
}

} // verus!

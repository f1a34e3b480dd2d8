//! Key events as they come from the capture hook, and the key codes the
//! engine tells apart.
use vstd::prelude::*;

verus! {

pub const VK_BACK: u32 = 0x08;
pub const VK_RETURN: u32 = 0x0D;
pub const VK_SPACE: u32 = 0x20;

pub const WM_KEYDOWN: u32 = 0x0100;
pub const WM_KEYUP: u32 = 0x0101;
pub const WM_SYSKEYDOWN: u32 = 0x0104;
pub const WM_SYSKEYUP: u32 = 0x0105;

/// The hook code under which a hook callback must process the message.
pub const HC_ACTION: i32 = 0;

/// One physical key transition.
#[derive(Clone, Copy, Debug, PartialEq, Eq, Structural)]
pub struct KeyboardEvent {
    pub vk_code: u32,
    pub scan_code: u32,
    pub flags: u32,
    pub is_key_down: bool,
}

/// What travels on the event bus.
#[derive(Clone, Copy, Debug, PartialEq, Eq, Structural)]
pub enum AppEvent {
    ShutdownRequested,
    Keyboard(KeyboardEvent),
}

pub open spec fn is_letter_vk_spec(vk: u32) -> bool {
    0x41 <= vk && vk <= 0x5A
}

pub open spec fn is_alt_vk_spec(vk: u32) -> bool {
    vk == 0x12 || vk == 0xA4 || vk == 0xA5
}

pub open spec fn is_shift_vk_spec(vk: u32) -> bool {
    vk == 0x10 || vk == 0xA0 || vk == 0xA1
}

/// The Latin letter on the key `vk` (A..Z), uppercase when Shift is held.
pub open spec fn vk_letter(vk: u32, shift: bool) -> char {
    if shift {
        vk as char
    } else {
        (vk + 32) as char
    }
}

pub fn is_letter_vk(vk: u32) -> (r: bool)
    ensures
        r == is_letter_vk_spec(vk),
{
    0x41 <= vk && vk <= 0x5A
}

pub fn is_alt_vk(vk: u32) -> (r: bool)
    ensures
        r == is_alt_vk_spec(vk),
{
    vk == 0x12 || vk == 0xA4 || vk == 0xA5
}

pub fn is_shift_vk(vk: u32) -> (r: bool)
    ensures
        r == is_shift_vk_spec(vk),
{
    vk == 0x10 || vk == 0xA0 || vk == 0xA1
}

pub fn vk_to_letter(vk: u32, shift: bool) -> (r: char)
    requires
        is_letter_vk_spec(vk),
    ensures
        r == vk_letter(vk, shift),
        'A' <= r <= 'Z' || 'a' <= r <= 'z',
{
    let upper = vk as u8;
    if shift {
        upper as char
    } else {
        (upper + 32) as char
    }
}

/// Whether a hook message is a key press (`Some(true)`), a key release
/// (`Some(false)`) or neither.
pub fn classify_key_message(msg: u32) -> (r: Option<bool>)
    ensures
        r == (if msg == WM_KEYDOWN || msg == WM_SYSKEYDOWN {
            Some(true)
        } else if msg == WM_KEYUP || msg == WM_SYSKEYUP {
            Some(false)
        } else {
            None::<bool>
        }),
{
    if msg == WM_KEYDOWN || msg == WM_SYSKEYDOWN {
        Some(true)
    } else if msg == WM_KEYUP || msg == WM_SYSKEYUP {
        Some(false)
    } else {
        None
    }
}

/// The event a low-level keyboard hook call carries, if any: only calls under
/// `HC_ACTION` with a press or release message carry one.
pub fn hook_event(code: i32, msg: u32, vk_code: u32, scan_code: u32, flags: u32) -> (r: Option<
    KeyboardEvent,
>)
    ensures
        r == (if code == HC_ACTION && (msg == WM_KEYDOWN || msg == WM_SYSKEYDOWN || msg == WM_KEYUP
            || msg == WM_SYSKEYUP) {
            Some(
                KeyboardEvent {
                    vk_code,
                    scan_code,
                    flags,
                    is_key_down: msg == WM_KEYDOWN || msg == WM_SYSKEYDOWN,
                },
            )
        } else {
            None::<KeyboardEvent>
        }),
{
    if code != HC_ACTION {
        return None;
    }
    match classify_key_message(msg) {
        Some(is_key_down) => Some(KeyboardEvent { vk_code, scan_code, flags, is_key_down }),
        None => None,
    }
}

} // verus!

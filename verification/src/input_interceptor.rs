//! Keyboard policy while a session is locked: which key presses the
//! low-level keyboard hook swallows, and the bookkeeping of the installed
//! hook. Installing the hook and pumping its messages happen outside the
//! library.

use vstd::prelude::*;

verus! {

/// Virtual-key code of Tab.
pub const VK_TAB: u32 = 0x09;

/// Virtual-key code of Escape.
pub const VK_ESCAPE: u32 = 0x1B;

/// Virtual-key code of the left Windows key.
pub const VK_LWIN: u32 = 0x5B;

/// Virtual-key code of the right Windows key.
pub const VK_RWIN: u32 = 0x5C;

/// Virtual-key code of F4.
pub const VK_F4: u32 = 0x73;

/// Message of a key press.
pub const WM_KEYDOWN: usize = 0x0100;

/// Message of a key press while Alt is held (or of F10).
pub const WM_SYSKEYDOWN: usize = 0x0104;

/// Hook flag: Alt was down when the key was pressed.
pub const LLKHF_ALTDOWN: u32 = 0x20;

/// A keyboard event as the low-level hook receives it.
#[derive(Debug, Clone, Copy)]
pub struct KeyEvent {
    /// The hook code (negative: pass the event on untouched).
    pub code: i32,
    /// The keyboard message.
    pub message: usize,
    /// The virtual-key code.
    pub vk_code: u32,
    /// The hook flags.
    pub flags: u32,
}

/// Whether the hook flags say Alt was down.
pub open spec fn alt_flag(flags: u32) -> bool {
    flags & LLKHF_ALTDOWN != 0
}

/// Whether the hook flags say Alt was down.
pub fn is_alt_down(flags: u32) -> (r: bool)
    ensures
        r == alt_flag(flags),
{
    flags & LLKHF_ALTDOWN != 0
}

/// Whether a key state from `GetAsyncKeyState` says the key is held down
/// (its most significant bit is set).
pub fn key_is_down(state: i16) -> (r: bool)
    ensures
        r == (state < 0),
{
    let mask: i16 = -32768;
    let down = state & mask != 0;
    assert((state & -32768i16 != 0) == (state < 0)) by (bit_vector);
    down
}

/// The system shortcuts a locked session swallows: the Windows keys,
/// Alt+Tab, Alt+F4, Alt+Esc, Ctrl+Esc and Ctrl+Shift+Esc.
pub open spec fn is_blocked_shortcut(vk: u32, alt: bool, ctrl: bool, shift: bool) -> bool {
    ||| vk == VK_LWIN
    ||| vk == VK_RWIN
    ||| vk == VK_TAB && alt
    ||| vk == VK_F4 && alt
    ||| vk == VK_ESCAPE && alt
    ||| vk == VK_ESCAPE && ctrl
    ||| vk == VK_ESCAPE && ctrl && shift
}

/// Whether the hook swallows `ev`: only key presses, only while the hook is
/// active, and only the blocked shortcuts.
pub open spec fn blocks(hook_active: bool, ev: KeyEvent, ctrl_down: bool, shift_down: bool) -> bool {
    &&& ev.code >= 0
    &&& hook_active
    &&& (ev.message == WM_KEYDOWN || ev.message == WM_SYSKEYDOWN)
    &&& is_blocked_shortcut(ev.vk_code, alt_flag(ev.flags), ctrl_down, shift_down)
}

/// Decides whether the keyboard hook swallows `ev` (otherwise it is passed
/// on to the next hook). `ctrl_down` and `shift_down` are the current
/// states of Ctrl and Shift.
pub fn should_block_key(hook_active: bool, ev: KeyEvent, ctrl_down: bool, shift_down: bool) -> (b: bool)
    ensures
        b == blocks(hook_active, ev, ctrl_down, shift_down),
{
    if ev.code >= 0 && hook_active {
        let vk = ev.vk_code;
        let is_keydown = ev.message == WM_KEYDOWN || ev.message == WM_SYSKEYDOWN;
        if is_keydown {
            if vk == VK_LWIN || vk == VK_RWIN {
                return true;
            }
            if vk == VK_TAB && is_alt_down(ev.flags) {
                return true;
            }
            if vk == VK_F4 && is_alt_down(ev.flags) {
                return true;
            }
            if vk == VK_ESCAPE && is_alt_down(ev.flags) {
                return true;
            }
            if vk == VK_ESCAPE && ctrl_down {
                return true;
            }
            if vk == VK_ESCAPE && ctrl_down && shift_down {
                return true;
            }
        }
    }
    false
}

/// The installed keyboard hook: its handle, and whether it swallows keys.
#[derive(Debug, Clone, Copy, PartialEq, Eq, Structural)]
pub struct HookState {
    pub handle: Option<isize>,
    pub active: bool,
}

/// No hook installed.
pub fn no_hook() -> (s: HookState)
    ensures
        s.handle is None,
        !s.active,
{
    HookState { handle: None, active: false }
}

impl HookState {
    /// Records a freshly installed hook: it becomes the hook and is active.
    pub fn installed(&mut self, handle: isize)
        ensures
            final(self).handle == Some(handle),
            final(self).active,
    {
        self.handle = Some(handle);
        self.active = true;
    }

    /// When the hook's message loop ends: hands out the hook to remove (if
    /// one is still installed) and deactivates.
    pub fn loop_ended(&mut self) -> (h: Option<isize>)
        ensures
            h == old(self).handle,
            final(self).handle is None,
            !final(self).active,
    {
        let h = self.handle;
        self.handle = None;
        self.active = false;
        h
    }
}

/// The hook bookkeeping after an uninstall request, and the hook to remove.
pub open spec fn after_uninstall(s: HookState) -> (HookState, Option<isize>) {
    match s.handle {
        Some(h) => (HookState { handle: None, active: false }, Some(h)),
        None => (s, None),
    }
}

/// Uninstalls the keyboard hook: hands out the hook to remove, if one is
/// installed, and then deactivates it; with no hook installed nothing
/// changes.
pub fn uninstall_hook(state: &mut HookState) -> (h: Option<isize>)
    ensures
        (*final(state), h) == after_uninstall(*old(state)),
{
    match state.handle {
        Some(h) => {
            state.handle = None;
            state.active = false;
            Some(h)
        },
        None => None,
    }
}

/// While the hook is active, every key press of a blocked shortcut is
/// swallowed, whatever else is held.
pub proof fn law_shortcuts_blocked(ev: KeyEvent, ctrl_down: bool, shift_down: bool)
    requires
        ev.code >= 0,
        ev.message == WM_KEYDOWN || ev.message == WM_SYSKEYDOWN,
    ensures
        ev.vk_code == VK_LWIN || ev.vk_code == VK_RWIN ==> blocks(true, ev, ctrl_down, shift_down),
        (ev.vk_code == VK_TAB || ev.vk_code == VK_F4 || ev.vk_code == VK_ESCAPE) && alt_flag(ev.flags)
            ==> blocks(true, ev, ctrl_down, shift_down),
        ev.vk_code == VK_ESCAPE && ctrl_down ==> blocks(true, ev, ctrl_down, shift_down),
{
}

/// Nothing is swallowed while the hook is inactive, on key releases, or
/// when the hook code says to pass the event on; and Shift never decides.
pub proof fn law_only_active_presses_blocked(hook_active: bool, ev: KeyEvent, ctrl_down: bool, shift_down: bool)
    ensures
        !hook_active ==> !blocks(hook_active, ev, ctrl_down, shift_down),
        ev.code < 0 ==> !blocks(hook_active, ev, ctrl_down, shift_down),
        ev.message != WM_KEYDOWN && ev.message != WM_SYSKEYDOWN ==> !blocks(hook_active, ev, ctrl_down, shift_down),
        blocks(hook_active, ev, ctrl_down, shift_down) == blocks(hook_active, ev, ctrl_down, !shift_down),
{
}

/// An installed hook is handed out by the first uninstall, deactivated, and
/// never handed out again.
pub proof fn law_uninstall_once(s: HookState, h: isize)
    ensures
        after_uninstall(HookState { handle: Some(h), active: true }) == (HookState { handle: None, active: false }, Some(h)),
        after_uninstall(after_uninstall(s).0).1 is None,
        !after_uninstall(s).0.active || s.handle is None,
{
}

/// Exactly the listed shortcuts are swallowed: an active hook swallows a
/// key press (`WM_KEYDOWN` 0x0100 or `WM_SYSKEYDOWN` 0x0104) with a
/// non-negative hook code when, and only when, it is a Windows key (0x5B,
/// 0x5C), Tab (0x09), F4 (0x73) or Escape (0x1B) with the Alt flag (0x20)
/// set, or Escape with Ctrl held. In particular a key other than a Windows
/// key or Escape, pressed without Alt, is always passed on, whatever Ctrl
/// and Shift are (Ctrl+Tab among them).
pub proof fn law_only_listed_shortcuts_blocked(hook_active: bool, ev: KeyEvent, ctrl_down: bool, shift_down: bool)
    ensures
        blocks(hook_active, ev, ctrl_down, shift_down) <==> {
            &&& ev.code >= 0
            &&& hook_active
            &&& (ev.message == 0x0100 || ev.message == 0x0104)
            &&& {
                ||| ev.vk_code == 0x5B
                ||| ev.vk_code == 0x5C
                ||| ev.flags & 0x20 != 0 && (ev.vk_code == 0x09 || ev.vk_code == 0x73 || ev.vk_code == 0x1B)
                ||| ev.vk_code == 0x1B && ctrl_down
            }
        },
        ev.flags & 0x20 == 0 && ev.vk_code != 0x5B && ev.vk_code != 0x5C && ev.vk_code != 0x1B
            ==> !blocks(hook_active, ev, ctrl_down, shift_down),
        ev.flags & 0x20 == 0 && ev.vk_code == 0x09 ==> !blocks(hook_active, ev, ctrl_down, shift_down),
{
}

} // verus!

use securelock::input_interceptor::{
    is_alt_down, key_is_down, no_hook, should_block_key, uninstall_hook, KeyEvent, LLKHF_ALTDOWN, VK_ESCAPE, VK_F4,
    VK_LWIN, VK_RWIN, VK_TAB, WM_KEYDOWN, WM_SYSKEYDOWN,
};

const WM_KEYUP: usize = 0x0101;
const VK_A: u32 = 0x41;

fn press(vk: u32, alt: bool) -> KeyEvent {
    KeyEvent {
        code: 0,
        message: if alt { WM_SYSKEYDOWN } else { WM_KEYDOWN },
        vk_code: vk,
        flags: if alt { LLKHF_ALTDOWN } else { 0 },
    }
}

#[test]
fn system_shortcuts_are_swallowed() {
    assert!(should_block_key(true, press(VK_LWIN, false), false, false));
    assert!(should_block_key(true, press(VK_RWIN, false), false, false));
    assert!(should_block_key(true, press(VK_TAB, true), false, false));
    assert!(should_block_key(true, press(VK_F4, true), false, false));
    assert!(should_block_key(true, press(VK_ESCAPE, true), false, false));
    assert!(should_block_key(true, press(VK_ESCAPE, false), true, false));
    assert!(should_block_key(true, press(VK_ESCAPE, false), true, true));
}

#[test]
fn ordinary_keys_and_inactive_hook_pass() {
    assert!(!should_block_key(true, press(VK_A, false), true, true));
    assert!(!should_block_key(true, press(VK_TAB, false), false, false));
    assert!(!should_block_key(true, press(VK_ESCAPE, false), false, true));
    assert!(!should_block_key(false, press(VK_LWIN, false), false, false));
    let mut up = press(VK_LWIN, false);
    up.message = WM_KEYUP;
    assert!(!should_block_key(true, up, false, false));
    let mut pass_on = press(VK_LWIN, false);
    pass_on.code = -1;
    assert!(!should_block_key(true, pass_on, false, false));
}

#[test]
fn modifier_bits() {
    assert!(is_alt_down(0x20));
    assert!(is_alt_down(0xA1));
    assert!(!is_alt_down(0x01));
    assert!(key_is_down(i16::MIN));
    assert!(key_is_down(-1));
    assert!(!key_is_down(1));
    assert!(!key_is_down(0));
}

#[test]
fn hook_is_handed_out_once() {
    let mut hook = no_hook();
    assert_eq!(uninstall_hook(&mut hook), None);
    hook.installed(42);
    assert!(hook.active);
    assert_eq!(uninstall_hook(&mut hook), Some(42));
    assert!(!hook.active);
    assert_eq!(uninstall_hook(&mut hook), None);
    hook.installed(43);
    assert_eq!(hook.loop_ended(), Some(43));
    assert_eq!(hook.loop_ended(), None);
    assert!(!hook.active);
}

//! The low-level keyboard filter's decision: which key events trigger a
//! preview.

use vstd::prelude::*;

verus! {

/// The message that reports a key going down.
pub const WM_KEYDOWN: usize = 0x0100;

/// The message that reports a key going down while the system key is held.
pub const WM_SYSKEYDOWN: usize = 0x0104;

/// The virtual key code of the trigger key, the space bar.
pub const VK_SPACE: u32 = 0x20;

/// The key event is one that the filter acts on: the hook code asks for
/// processing (it is not negative), the message reports a key going down, and
/// the key is the trigger key.
pub open spec fn is_trigger(ncode: i32, message: usize, vk_code: u32) -> bool {
    ncode >= 0 && (message == WM_KEYDOWN || message == WM_SYSKEYDOWN) && vk_code == VK_SPACE
}

/// Whether `vk_code` is the trigger key.
pub fn handle_key_down(vk_code: u32) -> (hit: bool)
    ensures
        hit == (vk_code == VK_SPACE),
{
    vk_code == VK_SPACE
}

/// Whether the key event triggers a preview. The event is passed on to the
/// next filter whatever the answer.
pub fn keyboard_proc(ncode: i32, message: usize, vk_code: u32) -> (hit: bool)
    ensures
        hit == is_trigger(ncode, message, vk_code),
{
    ncode >= 0 && (message == WM_KEYDOWN || message == WM_SYSKEYDOWN) && handle_key_down(vk_code)
}

} // verus!

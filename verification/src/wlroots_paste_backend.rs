//! Direct paste on wlroots compositors through the virtual keyboard protocol:
//! the key codes and the XKB keymap the virtual keyboard is given.
use vstd::prelude::*;

use crate::portal_eis_paste_backend::{ctrl_v_spec, KeyFrame};

verus! {

/// Linux evdev keycode for Left Control (linux/input-event-codes.h).
pub const KEY_LEFTCTRL: u32 = 29;

/// Linux evdev keycode for 'V' (linux/input-event-codes.h).
pub const KEY_V: u32 = 47;

pub const KEY_PRESS: u32 = 1;

pub const KEY_RELEASE: u32 = 0;

/// Milliseconds between the key presses and the key releases.
pub const KEY_INTERVAL_MS: u64 = 25;

/// The complete XKB keymap given to the virtual keyboard: evdev codes 29 and
/// 47 map to Control_L and v.
pub const XKB_KEYMAP_STRING: &'static str = "xkb_keymap {
    xkb_keycodes  { include \"evdev+aliases(qwerty)\" };
    xkb_types     { include \"complete\" };
    xkb_compat    { include \"complete\" };
    xkb_symbols   { include \"pc+us+inet(evdev)\" };
};
";

/// The state the Wayland event queue dispatches to; the daemon keeps none.
#[derive(Debug, Default)]
pub struct WlrootsState;

/// The name of the backend.
pub fn backend_name() -> (r: &'static str)
    ensures
        r@ == "Wayland wlroots virtual keyboard direct paste"@,
{
    "Wayland wlroots virtual keyboard direct paste"
}

/// The key state a frame sends over the virtual keyboard protocol.
pub fn key_state(frame: KeyFrame) -> (r: u32)
    ensures
        r == if frame.pressed {
            KEY_PRESS
        } else {
            KEY_RELEASE
        },
{
    if frame.pressed {
        KEY_PRESS
    } else {
        KEY_RELEASE
    }
}

/// The key events of one paste, as (keycode, state): Ctrl+V pressed and released.
pub fn paste_key_events() -> (r: Vec<(u32, u32)>)
    ensures
        r@.len() == ctrl_v_spec().len(),
        forall|i: int|
            0 <= i < r@.len() ==> #[trigger] r@[i] == (
                ctrl_v_spec()[i].key,
                if ctrl_v_spec()[i].pressed {
                    KEY_PRESS
                } else {
                    KEY_RELEASE
                },
            ),
{
    let frames = crate::portal_eis_paste_backend::ctrl_v_frames();
    let mut r: Vec<(u32, u32)> = Vec::new();
    for i in 0..frames.len()
        invariant
            frames@ == ctrl_v_spec(),
            r@.len() == i,
            forall|j: int|
                0 <= j < i ==> #[trigger] r@[j] == (
                    ctrl_v_spec()[j].key,
                    if ctrl_v_spec()[j].pressed {
                        KEY_PRESS
                    } else {
                        KEY_RELEASE
                    },
                ),
    {
        let f = frames[i];
        r.push((f.key, key_state(f)));
    }
    r
}

/// The byte size of the keymap, as the protocol's `keymap` request takes it.
pub fn keymap_size() -> (r: u32)
    ensures
        r as nat == XKB_KEYMAP_STRING.len(),
{
    let n = XKB_KEYMAP_STRING.len();
    proof {
        reveal_strlit("xkb_keymap {
    xkb_keycodes  { include \"evdev+aliases(qwerty)\" };
    xkb_types     { include \"complete\" };
    xkb_compat    { include \"complete\" };
    xkb_symbols   { include \"pc+us+inet(evdev)\" };
};
");
        vstd::string::is_ascii_spec_bytes(XKB_KEYMAP_STRING);
    }
    assert(XKB_KEYMAP_STRING.is_ascii());
    n as u32
}

} // verus!

//! Pasting on X11: Ctrl+V typed through the XTEST extension, with the
//! keycodes of Control_L and `v` looked up in the server's keyboard mapping.
use vstd::prelude::*;

use crate::paste_backend::{PasteCapability, PasteError};
use crate::text::{append_chars, append_str, chars_to_string, str_chars};
use crate::x11_shortcut_backend::{absent, hex_text, hex_u32, is_first_pos, keycode_for_keysym};

verus! {

/// The keysym of the left Control key.
pub const XK_CONTROL_L: u32 = 0xffe3;

/// The keysym of `v`.
pub const XK_V: u32 = 0x0076;

/// The XTEST event type of a key press.
pub const XTEST_KEY_PRESS: u8 = 2;

/// The XTEST event type of a key release.
pub const XTEST_KEY_RELEASE: u8 = 3;

/// The keycode of a keysym in the server's keyboard mapping, for pasting.
pub fn paste_keycode_for_keysym(min_keycode: u8, keysyms: &Vec<u32>, per_keycode: usize, keysym: u32) -> (r:
    Result<u8, PasteError>)
    requires
        per_keycode > 0,
        keysyms.len() <= (256 - min_keycode) * per_keycode,
    ensures
        absent(keysyms@, keysym) ==> (r matches Err(PasteError::Failed(m)) && m@
            == "no keycode found for keysym 0x"@ + hex_text(keysym as nat)),
        forall|p: int| is_first_pos(keysyms@, keysym, p) ==> (r matches Ok(k) && k == (min_keycode
            + p / (per_keycode as int)) as u8),
{
    match keycode_for_keysym(min_keycode, keysyms, per_keycode, keysym) {
        Some(k) => Ok(k),
        None => {
            let mut m = str_chars("no keycode found for keysym 0x");
            let h = hex_u32(keysym);
            append_chars(&mut m, &h);
            Err(PasteError::Failed(chars_to_string(&m)))
        },
    }
}

/// The XTEST event type of a press or a release.
pub fn xtest_event_type(pressed: bool) -> (r: u8)
    ensures
        r == if pressed { XTEST_KEY_PRESS } else { XTEST_KEY_RELEASE },
{
    if pressed {
        XTEST_KEY_PRESS
    } else {
        XTEST_KEY_RELEASE
    }
}

/// The key events of a paste: Control down, `v` down, `v` up, Control up.
pub open spec fn paste_events_spec(control: u8, v: u8) -> Seq<(u8, bool)> {
    seq![(control, true), (v, true), (v, false), (control, false)]
}

/// The X11 paste backend types Ctrl+V directly into the focused window.
pub struct X11PasteBackend;

impl X11PasteBackend {
    pub fn capability(&self) -> (r: PasteCapability)
        ensures
            r == PasteCapability::Direct,
    {
        PasteCapability::Direct
    }

    /// The key events to send, from the server's keyboard mapping: the
    /// keycode of Control_L is looked up first, then that of `v`.
    pub fn paste_events(&self, min_keycode: u8, keysyms: &Vec<u32>, per_keycode: usize) -> (r: Result<
        Vec<(u8, bool)>,
        PasteError,
    >)
        requires
            per_keycode > 0,
            keysyms.len() <= (256 - min_keycode) * per_keycode,
        ensures
            absent(keysyms@, XK_CONTROL_L) ==> (r matches Err(PasteError::Failed(m)) && m@
                == "no keycode found for keysym 0x"@ + hex_text(XK_CONTROL_L as nat)),
            !absent(keysyms@, XK_CONTROL_L) && absent(keysyms@, XK_V) ==> (r matches Err(
                PasteError::Failed(m),
            ) && m@ == "no keycode found for keysym 0x"@ + hex_text(XK_V as nat)),
            forall|pc: int, pv: int|
                is_first_pos(keysyms@, XK_CONTROL_L, pc) && is_first_pos(keysyms@, XK_V, pv) ==> (
                r matches Ok(events) && events@ == paste_events_spec(
                    (min_keycode + pc / (per_keycode as int)) as u8,
                    (min_keycode + pv / (per_keycode as int)) as u8,
                )),
    {
        let control = match paste_keycode_for_keysym(min_keycode, keysyms, per_keycode, XK_CONTROL_L) {
            Ok(k) => k,
            Err(e) => {
                proof {
                    assert forall|p: int| !is_first_pos(keysyms@, XK_CONTROL_L, p) by {
                    }
                    if !absent(keysyms@, XK_CONTROL_L) {
                        lemma_first_exists(keysyms@, XK_CONTROL_L);
                    }
                }
                return Err(e);
            },
        };
        let v = match paste_keycode_for_keysym(min_keycode, keysyms, per_keycode, XK_V) {
            Ok(k) => k,
            Err(e) => {
                proof {
                    if !absent(keysyms@, XK_V) {
                        lemma_first_exists(keysyms@, XK_V);
                    }
                    if absent(keysyms@, XK_CONTROL_L) {
                        assert forall|p: int| !is_first_pos(keysyms@, XK_CONTROL_L, p) by {
                        }
                    }
                }
                return Err(e);
            },
        };
        proof {
            if absent(keysyms@, XK_CONTROL_L) {
            }
            if absent(keysyms@, XK_V) {
            }
        }
        let events = vec![(control, true), (v, true), (v, false), (control, false)];
        assert(events@ =~= paste_events_spec(control, v));
        Ok(events)
    }
}

/// A value that occurs has a first occurrence.
pub proof fn lemma_first_exists(s: Seq<u32>, x: u32)
    requires
        !absent(s, x),
    ensures
        exists|p: int| is_first_pos(s, x, p),
    decreases s.len(),
{
    let j0 = choose|j: int| 0 <= j < s.len() && s[j] == x;
    let d = s.drop_last();
    if !absent(d, x) {
        lemma_first_exists(d, x);
        let p = choose|p: int| is_first_pos(d, x, p);
        assert forall|j: int| 0 <= j < p implies s[j] != x by {
            assert(s[j] == d[j]);
        }
        assert(s[p] == d[p]);
        assert(is_first_pos(s, x, p));
    } else {
        if j0 < s.len() - 1 {
            assert(d[j0] == s[j0]);
        }
        assert forall|j: int| 0 <= j < s.len() - 1 implies s[j] != x by {
            assert(s[j] == d[j]);
        }
        assert(is_first_pos(s, x, s.len() - 1));
    }
}

} // verus!

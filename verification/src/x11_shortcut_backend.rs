//! X11 global shortcuts: keysyms, modifier masks, lookups in the server's
//! keyboard and modifier mappings, and the decisions of a passive grab on the
//! root window (a transactional grab attempt and the auto-repeat filter).
//!
//! Modifier masks are the X11 protocol's 16-bit `KeyButMask` values.
use vstd::prelude::*;

use crate::focus_backend::hex_digit;
use crate::shortcut_backend::{
    keysym_spec, NamedKey, OutcomeView, Shortcut, ShortcutBackendCapability, ShortcutError,
    ShortcutErrorView, ShortcutKey, ShortcutModifiers, ShortcutRegistrationOutcome, shortcut_text,
};
use crate::text::{
    append_chars, append_str, ascii_lower, char_to_ascii_lowercase, chars_to_string,
    is_ascii_alnum, str_chars,
};

verus! {

/// The Num Lock keysym.
pub const XK_NUM_LOCK: u32 = 0xff7f;

pub const X11_MOD_SHIFT: u16 = 1;

pub const X11_MOD_LOCK: u16 = 2;

pub const X11_MOD_CONTROL: u16 = 4;

pub const X11_MOD_M1: u16 = 8;

pub const X11_MOD_M2: u16 = 16;

pub const X11_MOD_M3: u16 = 32;

pub const X11_MOD_M4: u16 = 64;

pub const X11_MOD_M5: u16 = 128;

// ---------------------------------------------------------------------------
// Keysyms and modifier masks

/// The keysym that a shortcut key is grabbed by: ASCII letters and digits by
/// their lower-case code, named keys by their keysym; other characters have
/// none.
pub open spec fn keysym_of(key: ShortcutKey) -> Option<u32> {
    match key {
        ShortcutKey::Character(c) => if is_ascii_alnum(c) {
            Some(ascii_lower(c) as u32)
        } else {
            None
        },
        ShortcutKey::Named(n) => Some(keysym_spec(n)),
    }
}

/// The keysym of a shortcut key; a character other than an ASCII letter or
/// digit cannot be grabbed.
pub fn shortcut_keysym(key: ShortcutKey) -> (r: Result<u32, ShortcutError>)
    ensures
        keysym_of(key) matches Some(k) ==> (r matches Ok(x) && x == k),
        keysym_of(key) is None ==> r matches Err(ShortcutError::Unavailable),
{
    match key {
        ShortcutKey::Character(c) => {
            if ('a' <= c && c <= 'z') || ('A' <= c && c <= 'Z') || ('0' <= c && c <= '9') {
                Ok(char_to_ascii_lowercase(c) as u32)
            } else {
                Err(ShortcutError::Unavailable)
            }
        },
        ShortcutKey::Named(named) => Ok(named.keysym()),
    }
}

/// The mask of the held modifiers: Super is Mod4, Alt is Mod1.
pub open spec fn modifier_mask_spec(m: ShortcutModifiers) -> u16 {
    ((if m.super_key { X11_MOD_M4 } else { 0u16 }) + (if m.control { X11_MOD_CONTROL } else { 0u16 })
        + (if m.alt { X11_MOD_M1 } else { 0u16 }) + (if m.shift { X11_MOD_SHIFT } else { 0u16 })) as u16
}

/// Four flags, each added as its own bit (64, 4, 8, 1), can be read back
/// bit by bit.
proof fn lemma_x11_flag_bits(sup: bool, control: bool, alt: bool, shift: bool, r: u16)
    by (bit_vector)
    requires
        r == ((if sup { 64u16 } else { 0u16 }) + (if control { 4u16 } else { 0u16 }) + (if alt {
            8u16
        } else {
            0u16
        }) + (if shift { 1u16 } else { 0u16 })) as u16,
    ensures
        (r & 64u16 != 0u16) == sup,
        (r & 4u16 != 0u16) == control,
        (r & 8u16 != 0u16) == alt,
        (r & 1u16 != 0u16) == shift,
        r & !77u16 == 0u16,
{
}

/// Each held modifier maps to its own X11 modifier bit and no other bit is
/// set: Super to Mod4, Control to Control, Alt to Mod1, Shift to Shift; in
/// particular neither Lock nor Mod2 (Num Lock) is part of the mask.
pub proof fn lemma_x11_modifier_mask_bits(m: ShortcutModifiers)
    ensures
        (modifier_mask_spec(m) & X11_MOD_M4 != 0) == m.super_key,
        (modifier_mask_spec(m) & X11_MOD_CONTROL != 0) == m.control,
        (modifier_mask_spec(m) & X11_MOD_M1 != 0) == m.alt,
        (modifier_mask_spec(m) & X11_MOD_SHIFT != 0) == m.shift,
        modifier_mask_spec(m) & !(X11_MOD_M4 | X11_MOD_CONTROL | X11_MOD_M1 | X11_MOD_SHIFT) == 0,
        modifier_mask_spec(m) & X11_MOD_LOCK == 0,
        modifier_mask_spec(m) & X11_MOD_M2 == 0,
{
    lemma_x11_flag_bits(m.super_key, m.control, m.alt, m.shift, modifier_mask_spec(m));
    let r = modifier_mask_spec(m);
    assert(X11_MOD_M4 | X11_MOD_CONTROL | X11_MOD_M1 | X11_MOD_SHIFT == 77u16) by (bit_vector);
    assert(r & !77u16 == 0u16 ==> r & 2u16 == 0u16 && r & 16u16 == 0u16) by (bit_vector);
}

/// Two shortcuts get the same X11 grab mask exactly when they hold the same
/// modifiers.
pub proof fn lemma_x11_modifier_mask_injective(a: ShortcutModifiers, b: ShortcutModifiers)
    ensures
        (modifier_mask_spec(a) == modifier_mask_spec(b)) == (a == b),
{
    lemma_x11_modifier_mask_bits(a);
    lemma_x11_modifier_mask_bits(b);
}

/// The X11 modifier mask of the held modifiers.
pub fn x11_modifier_mask(modifiers: ShortcutModifiers) -> (r: u16)
    ensures
        r == modifier_mask_spec(modifiers),
{
    let s: u16 = if modifiers.super_key { X11_MOD_M4 } else { 0 };
    let c: u16 = if modifiers.control { X11_MOD_CONTROL } else { 0 };
    let a: u16 = if modifiers.alt { X11_MOD_M1 } else { 0 };
    let h: u16 = if modifiers.shift { X11_MOD_SHIFT } else { 0 };
    let mut mask: u16 = 0;
    mask = mask | s;
    mask = mask | c;
    mask = mask | a;
    mask = mask | h;
    assert(mask == s + c + a + h) by (bit_vector)
        requires
            s == 0 || s == 64,
            c == 0 || c == 4,
            a == 0 || a == 8,
            h == 0 || h == 1,
            mask == 0u16 | s | c | a | h,
    ;
    mask
}

/// The masks a grab needs so that Caps Lock and Num Lock do not stop the
/// shortcut: the base mask, with Lock, and when Num Lock has a modifier, with
/// Num Lock and with both.
pub open spec fn grab_masks(m: ShortcutModifiers, num_lock: Option<u16>) -> Seq<u16> {
    let base = modifier_mask_spec(m);
    let two = seq![base, base | X11_MOD_LOCK];
    match num_lock {
        Some(n) => two + seq![base | n, base | X11_MOD_LOCK | n],
        None => two,
    }
}

// ---------------------------------------------------------------------------
// Keyboard and modifier mappings

/// `p` is the first position of `x` in `s`.
pub open spec fn is_first_pos<T>(s: Seq<T>, x: T, p: int) -> bool {
    0 <= p < s.len() && s[p] == x && forall|j: int| 0 <= j < p ==> s[j] != x
}

/// `x` does not occur in `s`.
pub open spec fn absent<T>(s: Seq<T>, x: T) -> bool {
    forall|j: int| 0 <= j < s.len() ==> s[j] != x
}

/// The `{:#x}` text of a number: lowercase hexadecimal digits (after `0x`).
pub open spec fn hex_text(n: nat) -> Seq<char>
    decreases n,
{
    if n < 16 {
        seq![hex_digit(n)]
    } else {
        hex_text(n / 16).push(hex_digit(n % 16))
    }
}

/// The lowercase hexadecimal digits of a number.
pub fn hex_u32(n: u32) -> (r: Vec<char>)
    ensures
        r@ == hex_text(n as nat),
    decreases n,
{
    let d: u32 = n % 16;
    let c: char = if d < 10 {
        ((d as u8) + 48) as char
    } else {
        ((d as u8) + 87) as char
    };
    assert(c == hex_digit((n % 16) as nat));
    if n < 16 {
        let r = vec![c];
        assert(r@ =~= hex_text(n as nat));
        r
    } else {
        let mut r = hex_u32(n / 16);
        r.push(c);
        r
    }
}

proof fn lemma_chunk_index_fits(p: int, len: int, per: int, room: int)
    requires
        0 <= p < len,
        per > 0,
        room >= 0,
        len <= room * per,
    ensures
        0 <= p / per < room,
{
    assert(0 <= p / per) by (nonlinear_arith)
        requires
            p >= 0,
            per > 0,
    ;
    assert(p / per < room) by (nonlinear_arith)
        requires
            p < room * per,
            per > 0,
            p >= 0,
    ;
}

/// The keycode whose keysyms (a row of `per_keycode` in the server's
/// keyboard mapping, starting at `min_keycode`) contain `keysym`: the row of
/// its first occurrence.
pub fn keycode_for_keysym(min_keycode: u8, keysyms: &Vec<u32>, per_keycode: usize, keysym: u32) -> (r:
    Option<u8>)
    requires
        per_keycode > 0,
        keysyms.len() <= (256 - min_keycode) * per_keycode,
    ensures
        absent(keysyms@, keysym) ==> r is None,
        forall|p: int| is_first_pos(keysyms@, keysym, p) ==> r == Some(
            (min_keycode + p / (per_keycode as int)) as u8,
        ),
{
    let n = keysyms.len();
    let mut i: usize = 0;
    while i < n
        invariant
            n == keysyms.len(),
            i <= n,
            per_keycode > 0,
            keysyms.len() <= (256 - min_keycode) * per_keycode,
            forall|j: int| 0 <= j < i ==> keysyms@[j] != keysym,
        decreases n - i,
    {
        if keysyms[i] == keysym {
            proof {
                lemma_chunk_index_fits(
                    i as int,
                    n as int,
                    per_keycode as int,
                    256 - min_keycode,
                );
                assert forall|p: int| is_first_pos(keysyms@, keysym, p) implies p == i by {
                    if p < i {
                    } else if p > i {
                        assert(keysyms@[i as int] != keysym);
                    }
                }
            }
            let row = i / per_keycode;
            return Some(min_keycode + row as u8);
        }
        i = i + 1;
    }
    None
}

/// `keycode_for_keysym` for a shortcut key: a keysym that no key carries is
/// an error naming it.
pub fn resolve_keycode(min_keycode: u8, keysyms: &Vec<u32>, per_keycode: usize, keysym: u32) -> (r:
    Result<u8, ShortcutError>)
    requires
        per_keycode > 0,
        keysyms.len() <= (256 - min_keycode) * per_keycode,
    ensures
        absent(keysyms@, keysym) ==> (r matches Err(e) && e@ == ShortcutErrorView::Failed(
            "could not resolve keysym 0x"@ + hex_text(keysym as nat)
                + " on active keyboard layout"@,
        )),
        forall|p: int| is_first_pos(keysyms@, keysym, p) ==> (r matches Ok(k) && k == (min_keycode
            + p / (per_keycode as int)) as u8),
{
    match keycode_for_keysym(min_keycode, keysyms, per_keycode, keysym) {
        Some(k) => Ok(k),
        None => {
            let mut m = str_chars("could not resolve keysym 0x");
            let h = hex_u32(keysym);
            append_chars(&mut m, &h);
            append_str(&mut m, " on active keyboard layout");
            Err(ShortcutError::Failed(chars_to_string(&m)))
        },
    }
}

/// The eight modifier masks in the order of the server's modifier mapping:
/// Shift, Lock, Control, Mod1 to Mod5.
pub open spec fn modifier_mask_at(i: int) -> Option<u16> {
    if 0 <= i < 8 {
        Some((1u16 << (i as u16)) as u16)
    } else {
        None
    }
}

/// The modifier whose keycodes (a row of `per_modifier` in the server's
/// modifier mapping) contain `keycode`: the modifier of its first occurrence,
/// none beyond the eight modifiers or when the key is no modifier.
pub fn find_modifier_mask(keycodes: &Vec<u8>, per_modifier: usize, keycode: u8) -> (r: Option<u16>)
    requires
        per_modifier > 0,
    ensures
        absent(keycodes@, keycode) ==> r is None,
        forall|p: int| is_first_pos(keycodes@, keycode, p) ==> r == modifier_mask_at(
            p / (per_modifier as int),
        ),
{
    let masks: [u16; 8] = [1, 2, 4, 8, 16, 32, 64, 128];
    assert(masks@ =~= seq![1u16, 2u16, 4u16, 8u16, 16u16, 32u16, 64u16, 128u16]);
    let n = keycodes.len();
    let mut i: usize = 0;
    while i < n
        invariant
            n == keycodes.len(),
            i <= n,
            per_modifier > 0,
            masks@ == seq![1u16, 2u16, 4u16, 8u16, 16u16, 32u16, 64u16, 128u16],
            forall|j: int| 0 <= j < i ==> keycodes@[j] != keycode,
        decreases n - i,
    {
        if keycodes[i] == keycode {
            proof {
                assert forall|p: int| is_first_pos(keycodes@, keycode, p) implies p == i by {
                    if p < i {
                    } else if p > i {
                        assert(keycodes@[i as int] != keycode);
                    }
                }
            }
            let row = i / per_modifier;
            if row < 8 {
                proof {
                    assert(1u16 << 0u16 == 1) by (bit_vector);
                    assert(1u16 << 1u16 == 2) by (bit_vector);
                    assert(1u16 << 2u16 == 4) by (bit_vector);
                    assert(1u16 << 3u16 == 8) by (bit_vector);
                    assert(1u16 << 4u16 == 16) by (bit_vector);
                    assert(1u16 << 5u16 == 32) by (bit_vector);
                    assert(1u16 << 6u16 == 64) by (bit_vector);
                    assert(1u16 << 7u16 == 128) by (bit_vector);
                }
                return Some(masks[row]);
            }
            return None;
        }
        i = i + 1;
    }
    None
}

// ---------------------------------------------------------------------------
// Grabbing

/// An error reply to a grab request: from the X server (whether it is an
/// access error, its code and its description), or from the connection.
#[derive(Debug)]
pub enum X11ReplyError {
    X11 { access_kind: bool, error_code: u8, description: String },
    Connection(String),
}

/// The error a refused grab is reported as: an access error (by kind or by
/// code 10, `BadAccess`) is a conflict with another client's grab.
pub open spec fn classified_error(
    access_kind: bool,
    error_code: u8,
    description: Seq<char>,
    connection: bool,
    s: Shortcut,
) -> ShortcutErrorView {
    if connection {
        ShortcutErrorView::Failed(
            "X11 connection error registering shortcut '"@ + shortcut_text(s) + "': "@ + description,
        )
    } else if access_kind || error_code == 10 {
        ShortcutErrorView::Conflict(
            "shortcut '"@ + shortcut_text(s) + "' conflicts with an existing X11 grab (BadAccess)"@,
        )
    } else {
        ShortcutErrorView::Failed(
            "X11 error registering shortcut '"@ + shortcut_text(s) + "': "@ + description,
        )
    }
}

/// The view of a reply error as the arguments of `classified_error`.
pub open spec fn reply_error_view(e: X11ReplyError) -> (bool, u8, Seq<char>, bool) {
    match e {
        X11ReplyError::X11 { access_kind, error_code, description } => (
            access_kind,
            error_code,
            description@,
            false,
        ),
        X11ReplyError::Connection(d) => (false, 0, d@, true),
    }
}

fn quoted_message(before: &str, s: Shortcut, after: &str, detail: &str) -> (r: String)
    ensures
        r@ == before@ + shortcut_text(s) + after@ + detail@,
{
    let mut m = str_chars(before);
    let t = s.to_string();
    append_str(&mut m, t.as_str());
    append_str(&mut m, after);
    append_str(&mut m, detail);
    chars_to_string(&m)
}

/// Classifies the error reply to a grab request.
pub fn classify_x11_error(error: X11ReplyError, shortcut: Shortcut) -> (r: ShortcutError)
    ensures
        ({
            let (a, c, d, conn) = reply_error_view(error);
            r@ == classified_error(a, c, d, conn, shortcut)
        }),
{
    match error {
        X11ReplyError::X11 { access_kind, error_code, description } => {
            if access_kind || error_code == 10 {
                proof {
                    reveal_strlit("");
                    let t = "shortcut '"@ + shortcut_text(shortcut)
                        + "' conflicts with an existing X11 grab (BadAccess)"@;
                    assert(t + ""@ =~= t);
                }
                ShortcutError::Conflict(
                    quoted_message(
                        "shortcut '",
                        shortcut,
                        "' conflicts with an existing X11 grab (BadAccess)",
                        "",
                    ),
                )
            } else {
                ShortcutError::Failed(
                    quoted_message(
                        "X11 error registering shortcut '",
                        shortcut,
                        "': ",
                        description.as_str(),
                    ),
                )
            }
        },
        X11ReplyError::Connection(d) => ShortcutError::Failed(
            quoted_message("X11 connection error registering shortcut '", shortcut, "': ", d.as_str()),
        ),
    }
}

/// One attempt at grabbing a keycode with a list of masks, one request per
/// mask in order. A refused request, or a failed flush at the end, rolls back
/// every mask this attempt acquired; nothing else is touched, so a grab that
/// was in place before stays in place.
pub struct X11GrabAttempt {
    masks: Vec<u16>,
    acquired: Vec<u16>,
    over: bool,
}

impl X11GrabAttempt {
    /// The masks the attempt grabs.
    pub closed spec fn masks_spec(&self) -> Seq<u16> {
        self.masks@
    }

    /// The masks granted so far and not rolled back.
    pub closed spec fn acquired_spec(&self) -> Seq<u16> {
        self.acquired@
    }

    /// The attempt has ended in an error.
    pub closed spec fn over_spec(&self) -> bool {
        self.over
    }

    /// What was granted is the first masks, in order.
    pub open spec fn wf(&self) -> bool {
        &&& self.acquired_spec().len() <= self.masks_spec().len()
        &&& self.acquired_spec() == self.masks_spec().take(self.acquired_spec().len() as int)
    }

    /// Every mask was granted.
    pub open spec fn complete(&self) -> bool {
        !self.over_spec() && self.acquired_spec() == self.masks_spec()
    }

    pub fn new(masks: Vec<u16>) -> (r: Self)
        ensures
            r.wf(),
            r.masks_spec() == masks@,
            r.acquired_spec() == Seq::<u16>::empty(),
            !r.over_spec(),
    {
        let r = X11GrabAttempt { masks, acquired: Vec::new(), over: false };
        assert(r.masks@.take(0) =~= Seq::<u16>::empty());
        r
    }

    /// The mask to request next; none once every mask was granted or the
    /// attempt has ended.
    pub fn next_mask(&self) -> (r: Option<u16>)
        requires
            self.wf(),
        ensures
            !self.over_spec() && self.acquired_spec().len() < self.masks_spec().len() ==> r == Some(
                self.masks_spec()[self.acquired_spec().len() as int],
            ),
            self.over_spec() || self.acquired_spec().len() == self.masks_spec().len() ==> r is None,
    {
        if !self.over && self.acquired.len() < self.masks.len() {
            Some(self.masks[self.acquired.len()])
        } else {
            None
        }
    }

    /// Whether every mask was granted.
    pub fn is_complete(&self) -> (r: bool)
        requires
            self.wf(),
        ensures
            r == self.complete(),
    {
        let r = !self.over && self.acquired.len() == self.masks.len();
        proof {
            if !self.over && self.acquired.len() == self.masks.len() {
                assert(self.masks@.take(self.masks@.len() as int) =~= self.masks@);
            }
        }
        r
    }

    /// The server granted the mask last requested.
    pub fn granted(&mut self)
        requires
            old(self).wf(),
            !old(self).over_spec(),
            old(self).acquired_spec().len() < old(self).masks_spec().len(),
        ensures
            final(self).wf(),
            final(self).masks_spec() == old(self).masks_spec(),
            final(self).acquired_spec() == old(self).acquired_spec().push(
                old(self).masks_spec()[old(self).acquired_spec().len() as int],
            ),
            !final(self).over_spec(),
    {
        let m = self.masks[self.acquired.len()];
        self.acquired.push(m);
        assert(self.acquired@ =~= self.masks@.take(self.acquired@.len() as int));
    }

    /// The request could not be sent: the attempt ends with that error, and
    /// what was granted so far stays grabbed.
    pub fn send_failed(&mut self, shortcut: Shortcut, detail: &str) -> (r: ShortcutError)
        requires
            old(self).wf(),
        ensures
            final(self).wf(),
            final(self).over_spec(),
            final(self).masks_spec() == old(self).masks_spec(),
            final(self).acquired_spec() == old(self).acquired_spec(),
            r@ == ShortcutErrorView::Failed(
                "failed to send X11 grab request for '"@ + shortcut_text(shortcut) + "': "@ + detail@,
            ),
    {
        self.over = true;
        ShortcutError::Failed(
            quoted_message("failed to send X11 grab request for '", shortcut, "': ", detail),
        )
    }

    fn take_acquired(&mut self) -> (r: Vec<u16>)
        requires
            old(self).wf(),
        ensures
            r@ == old(self).acquired_spec(),
            final(self).wf(),
            final(self).over_spec(),
            final(self).masks_spec() == old(self).masks_spec(),
            final(self).acquired_spec() == Seq::<u16>::empty(),
    {
        let mut rollback: Vec<u16> = Vec::new();
        std::mem::swap(&mut rollback, &mut self.acquired);
        self.over = true;
        assert(self.masks@.take(0) =~= Seq::<u16>::empty());
        rollback
    }

    /// The server refused the mask last requested: the attempt ends with the
    /// classified error, and every mask it acquired is to be ungrabbed.
    pub fn refused(&mut self, error: X11ReplyError, shortcut: Shortcut) -> (r: (Vec<u16>, ShortcutError))
        requires
            old(self).wf(),
        ensures
            r.0@ == old(self).acquired_spec(),
            ({
                let (a, c, d, conn) = reply_error_view(error);
                r.1@ == classified_error(a, c, d, conn, shortcut)
            }),
            final(self).wf(),
            final(self).over_spec(),
            final(self).masks_spec() == old(self).masks_spec(),
            final(self).acquired_spec() == Seq::<u16>::empty(),
    {
        let rollback = self.take_acquired();
        (rollback, classify_x11_error(error, shortcut))
    }

    /// Flushing the granted requests failed: the attempt ends with that error,
    /// and every mask it acquired is to be ungrabbed.
    pub fn flush_failed(&mut self, detail: &str) -> (r: (Vec<u16>, ShortcutError))
        requires
            old(self).wf(),
        ensures
            r.0@ == old(self).acquired_spec(),
            r.1@ == ShortcutErrorView::Failed("failed to flush X11 grab registration: "@ + detail@),
            final(self).wf(),
            final(self).over_spec(),
            final(self).masks_spec() == old(self).masks_spec(),
            final(self).acquired_spec() == Seq::<u16>::empty(),
    {
        let rollback = self.take_acquired();
        let mut m = str_chars("failed to flush X11 grab registration: ");
        append_str(&mut m, detail);
        (rollback, ShortcutError::Failed(chars_to_string(&m)))
    }

    /// The granted masks of a complete attempt: all of them, in order.
    pub fn into_granted(self) -> (r: Vec<u16>)
        requires
            self.wf(),
            self.complete(),
        ensures
            r@ == self.masks_spec(),
    {
        self.acquired
    }
}

// ---------------------------------------------------------------------------
// The backend's state

/// The grab in place: the shortcut, its keycode and the masks grabbed.
#[derive(Debug)]
pub struct RegisteredGrab {
    pub shortcut: Shortcut,
    pub keycode: u8,
    pub masks: Vec<u16>,
}

/// A grab by its values.
pub open spec fn grab_view(g: Option<RegisteredGrab>) -> Option<(Shortcut, u8, Seq<u16>)> {
    match g {
        Some(g) => Some((g.shortcut, g.keycode, g.masks@)),
        None => None,
    }
}

/// An X11 event as the shortcut backend reads it.
#[derive(Debug, Clone, Copy, PartialEq, Eq, Structural)]
pub enum X11KeyEvent {
    KeyPress { detail: u8, time: u32 },
    KeyRelease { detail: u8, time: u32 },
    Other,
}

/// What a registration does: nothing for the shortcut already grabbed, else
/// a grab of the key's keysym with the given masks.
pub enum X11RegisterStep {
    AlreadyActive(ShortcutRegistrationOutcome),
    Grab { keysym: u32, masks: Vec<u16> },
}

/// The description of an active X11 grab.
pub open spec fn grab_description(s: Shortcut) -> Seq<char> {
    "X11 root window grab for "@ + shortcut_text(s)
}

fn active_outcome(shortcut: Shortcut) -> (r: ShortcutRegistrationOutcome)
    ensures
        r@ == OutcomeView::Active(grab_description(shortcut)),
{
    proof {
        reveal_strlit("");
        let t = "X11 root window grab for "@ + shortcut_text(shortcut);
        assert(t + ""@ + ""@ =~= t);
    }
    ShortcutRegistrationOutcome::Active {
        description: quoted_message("X11 root window grab for ", shortcut, "", ""),
    }
}

/// After a key press: whether it activates, and whether the key is then held.
/// Only the grabbed key counts; pressing it while held (auto-repeat) does not
/// activate again.
pub open spec fn press_step(key_down: bool, keycode: Option<u8>, detail: u8) -> (bool, bool) {
    match keycode {
        Some(k) if detail == k => (!key_down, true),
        _ => (false, key_down),
    }
}

/// After a release of the grabbed key, with the event that follows it if one
/// is queued: whether the key is then held, and whether the following event is
/// kept to be read next. A press of the same key at the same time is X11's
/// auto-repeat: both are dropped and the key stays held.
pub open spec fn release_step(key_down: bool, keycode: u8, time: u32, next: Option<X11KeyEvent>) -> (
    bool,
    bool,
) {
    match next {
        Some(X11KeyEvent::KeyPress { detail, time: t }) if detail == keycode && t == time => (
            key_down,
            false,
        ),
        Some(_) => (false, true),
        None => (false, false),
    }
}

/// The state of the X11 shortcut backend that its decisions read: the
/// modifier that Num Lock is mapped to, the grab in place, and whether its key
/// is held. The connection to the X server stays with the caller.
pub struct X11ShortcutBackend {
    num_lock_mask: Option<u16>,
    registered_grab: Option<RegisteredGrab>,
    key_down: bool,
}

impl X11ShortcutBackend {
    pub closed spec fn num_lock_spec(&self) -> Option<u16> {
        self.num_lock_mask
    }

    pub closed spec fn grab_spec(&self) -> Option<(Shortcut, u8, Seq<u16>)> {
        grab_view(self.registered_grab)
    }

    pub closed spec fn key_down_spec(&self) -> bool {
        self.key_down
    }

    /// The keycode of the grab in place.
    pub open spec fn keycode_spec(&self) -> Option<u8> {
        match self.grab_spec() {
            Some(g) => Some(g.1),
            None => None,
        }
    }

    /// A backend with nothing grabbed.
    pub fn new(num_lock_mask: Option<u16>) -> (r: Self)
        ensures
            r.num_lock_spec() == num_lock_mask,
            r.grab_spec() is None,
            !r.key_down_spec(),
    {
        X11ShortcutBackend { num_lock_mask, registered_grab: None, key_down: false }
    }

    pub fn name(&self) -> (r: &'static str)
        ensures
            r@ == "X11 global shortcut"@,
    {
        "X11 global shortcut"
    }

    pub fn capability(&self) -> (r: ShortcutBackendCapability)
        ensures
            r == ShortcutBackendCapability::Native,
    {
        ShortcutBackendCapability::Native
    }

    /// The shortcut of the grab in place.
    pub fn registered_shortcut(&self) -> (r: Option<Shortcut>)
        ensures
            r == match self.grab_spec() {
                Some(g) => Some(g.0),
                None => None::<Shortcut>,
            },
    {
        match &self.registered_grab {
            Some(g) => Some(g.shortcut),
            None => None,
        }
    }

    /// The masks a grab of the modifiers needs (Caps Lock and Num Lock
    /// variants included).
    pub fn compute_modifier_masks(&self, modifiers: ShortcutModifiers) -> (r: Vec<u16>)
        ensures
            r@ == grab_masks(modifiers, self.num_lock_spec()),
    {
        let base = x11_modifier_mask(modifiers);
        let mut masks: Vec<u16> = vec![base, base | X11_MOD_LOCK];
        if let Some(num_lock) = self.num_lock_mask {
            masks.push(base | num_lock);
            masks.push(base | X11_MOD_LOCK | num_lock);
        }
        assert(masks@ =~= grab_masks(modifiers, self.num_lock_spec()));
        masks
    }

    /// What registering the shortcut does: re-registering the shortcut in
    /// place is a no-op; a key without keysym cannot be grabbed.
    pub fn plan_register(&self, shortcut: Shortcut) -> (r: Result<X11RegisterStep, ShortcutError>)
        ensures
            (match self.grab_spec() {
                Some(g) => g.0 == shortcut,
                None => false,
            }) ==> (r matches Ok(X11RegisterStep::AlreadyActive(o)) && o@ == OutcomeView::Active(
                grab_description(shortcut),
            )),
            !(match self.grab_spec() {
                Some(g) => g.0 == shortcut,
                None => false,
            }) ==> match keysym_of(shortcut.key) {
                Some(k) => r matches Ok(X11RegisterStep::Grab { keysym, masks }) && keysym == k
                    && masks@ == grab_masks(shortcut.modifiers, self.num_lock_spec()),
                None => r matches Err(ShortcutError::Unavailable),
            },
    {
        if self.registered_shortcut() == Some(shortcut) {
            return Ok(X11RegisterStep::AlreadyActive(active_outcome(shortcut)));
        }
        let keysym = match shortcut_keysym(shortcut.key) {
            Ok(k) => k,
            Err(e) => return Err(e),
        };
        let masks = self.compute_modifier_masks(shortcut.modifiers);
        Ok(X11RegisterStep::Grab { keysym, masks })
    }

    /// Records the new grab once every mask was granted. The grab that was in
    /// place before is handed back to be released; the key is not held.
    pub fn commit_grab(&mut self, shortcut: Shortcut, keycode: u8, masks: Vec<u16>) -> (r: (
        Option<RegisteredGrab>,
        ShortcutRegistrationOutcome,
    ))
        ensures
            grab_view(r.0) == old(self).grab_spec(),
            r.1@ == OutcomeView::Active(grab_description(shortcut)),
            final(self).grab_spec() == Some((shortcut, keycode, masks@)),
            final(self).num_lock_spec() == old(self).num_lock_spec(),
            !final(self).key_down_spec(),
    {
        let previous = self.registered_grab.take();
        self.registered_grab = Some(RegisteredGrab { shortcut, keycode, masks });
        self.key_down = false;
        (previous, active_outcome(shortcut))
    }

    /// Takes the grab in place, to be released; the key is not held.
    pub fn release_grab(&mut self) -> (r: Option<RegisteredGrab>)
        ensures
            grab_view(r) == old(self).grab_spec(),
            final(self).grab_spec() is None,
            final(self).num_lock_spec() == old(self).num_lock_spec(),
            !final(self).key_down_spec(),
    {
        self.key_down = false;
        self.registered_grab.take()
    }

    /// The keycode to wait for; waiting needs a registration first.
    pub fn activation_keycode(&self) -> (r: Result<u8, ShortcutError>)
        ensures
            self.keycode_spec() matches Some(k) ==> r == Ok::<u8, ShortcutError>(k),
            self.keycode_spec() is None ==> (r matches Err(e) && e@ == ShortcutErrorView::Failed(
                "shortcut backend has not been registered"@,
            )),
    {
        match &self.registered_grab {
            Some(g) => Ok(g.keycode),
            None => {
                let v = str_chars("shortcut backend has not been registered");
                Err(ShortcutError::Failed(chars_to_string(&v)))
            },
        }
    }

    /// A key press: whether it is an activation.
    pub fn on_key_press(&mut self, detail: u8) -> (activate: bool)
        ensures
            (activate, final(self).key_down_spec()) == press_step(
                old(self).key_down_spec(),
                old(self).keycode_spec(),
                detail,
            ),
            final(self).grab_spec() == old(self).grab_spec(),
            final(self).num_lock_spec() == old(self).num_lock_spec(),
    {
        let grabbed = match &self.registered_grab {
            Some(g) => g.keycode == detail,
            None => false,
        };
        if !grabbed {
            return false;
        }
        if self.key_down {
            return false;
        }
        self.key_down = true;
        true
    }

    /// Whether a key release is of the grabbed key, so that the event after
    /// it must be looked at.
    pub fn release_needs_lookahead(&self, detail: u8) -> (r: bool)
        ensures
            r == (self.keycode_spec() == Some(detail)),
    {
        match &self.registered_grab {
            Some(g) => g.keycode == detail,
            None => false,
        }
    }

    /// A release of the grabbed key at `time`, with the event queued after it:
    /// whether that event is kept to be read next.
    pub fn on_key_release(&mut self, time: u32, next: Option<X11KeyEvent>) -> (keep_next: bool)
        requires
            old(self).keycode_spec() is Some,
        ensures
            (final(self).key_down_spec(), keep_next) == release_step(
                old(self).key_down_spec(),
                old(self).keycode_spec()->0,
                time,
                next,
            ),
            final(self).grab_spec() == old(self).grab_spec(),
            final(self).num_lock_spec() == old(self).num_lock_spec(),
    {
        let keycode = match &self.registered_grab {
            Some(g) => g.keycode,
            None => 0,
        };
        match next {
            Some(X11KeyEvent::KeyPress { detail, time: t }) => {
                if detail == keycode && t == time {
                    return false;
                }
                self.key_down = false;
                true
            },
            Some(_) => {
                self.key_down = false;
                true
            },
            None => {
                self.key_down = false;
                false
            },
        }
    }
}

// ---------------------------------------------------------------------------
// Laws of the key-repeat filter

/// Holding the grabbed key activates once: a press activates only when the
/// key was up, and leaves it held; an auto-repeat pair (a release followed by
/// a press of the same key at the same time) keeps it held, so the repeated
/// press does not activate again.
pub proof fn lemma_held_key_activates_once(keycode: u8, time: u32)
    ensures
        press_step(false, Some(keycode), keycode) == (true, true),
        press_step(true, Some(keycode), keycode) == (false, true),
        release_step(true, keycode, time, Some(X11KeyEvent::KeyPress { detail: keycode, time })) == (
            true,
            false,
        ),
{
}

/// A release that is not followed by its auto-repeat press lets the key up,
/// so the next press of it activates again; an event that follows the
/// release is kept to be read next.
pub proof fn lemma_release_rearms(key_down: bool, keycode: u8, time: u32, next: Option<X11KeyEvent>)
    requires
        next != Some(X11KeyEvent::KeyPress { detail: keycode, time }),
    ensures
        release_step(key_down, keycode, time, next).0 == false,
        release_step(key_down, keycode, time, next).1 == (next is Some),
        press_step(release_step(key_down, keycode, time, next).0, Some(keycode), keycode).0,
{
}

/// Other keys neither activate nor change whether the grabbed key is held.
pub proof fn lemma_other_keys_ignored(key_down: bool, keycode: Option<u8>, detail: u8)
    requires
        keycode != Some(detail),
    ensures
        press_step(key_down, keycode, detail) == (false, key_down),
{
}

} // verus!

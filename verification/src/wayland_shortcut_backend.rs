//! Global shortcuts through the XDG desktop portal (`GlobalShortcuts`): the
//! application identity, the trigger text the portal is offered, the request
//! object paths, the handle tokens and the reading of portal responses.
use vstd::prelude::*;

use crate::focus_backend::{format_uuid_simple, hex_digit, uuid_simple_text};
use crate::shortcut_backend::{
    portal_name_spec, NamedKey, Shortcut, ShortcutError, ShortcutErrorView, ShortcutKey,
    ShortcutModifiers,
};
use crate::text::{
    append_chars, append_str, ascii_lower, char_to_ascii_lowercase, chars_to_string, contains,
    contains_str, decimal, is_ascii_alnum, str_chars,
};

verus! {

pub const POOKIE_APPLICATION_ID: &'static str = "io.github.riyanj220.PookiePaste";

pub const POOKIE_DESKTOP_FILE_ID: &'static str = "io.github.riyanj220.PookiePaste.desktop";

pub const PORTAL_DESTINATION: &'static str = "org.freedesktop.portal.Desktop";

pub const PORTAL_PATH: &'static str = "/org/freedesktop/portal/desktop";

pub const GLOBAL_SHORTCUTS_INTERFACE: &'static str = "org.freedesktop.portal.GlobalShortcuts";

pub const REQUEST_PATH_PREFIX: &'static str = "/org/freedesktop/portal/desktop/request";

/// The id of the one shortcut the daemon binds.
pub const CLIPBOARD_HISTORY_SHORTCUT_ID: &'static str = "clipboard-history";

pub const CLIPBOARD_HISTORY_DESCRIPTION: &'static str = "Open clipboard history";

/// The portal's `GlobalShortcuts` interface version.
#[derive(Debug, Clone, Copy, PartialEq, Eq, Structural)]
pub struct WaylandShortcutCapability {
    pub version: u32,
}

/// A shortcut the portal bound, with the trigger it chose.
#[derive(Debug, Clone, PartialEq, Eq)]
pub struct BoundShortcut {
    pub id: String,
    pub trigger_description: Option<String>,
}

#[derive(Debug, Clone, PartialEq, Eq)]
pub struct WaylandShortcutActivation {
    pub shortcut_id: String,
    pub timestamp: u64,
    pub activation_token: Option<String>,
}

#[derive(Debug, Clone, PartialEq, Eq)]
pub struct WaylandShortcutDeactivation {
    pub shortcut_id: String,
    pub timestamp: u64,
}

/// The portal's modifier tags, in the order Ctrl, Alt, Shift, Super.
pub open spec fn portal_modifiers_text(m: ShortcutModifiers) -> Seq<char> {
    (if m.control {
        "<Ctrl>"@
    } else {
        Seq::empty()
    }) + (if m.alt {
        "<Alt>"@
    } else {
        Seq::empty()
    }) + (if m.shift {
        "<Shift>"@
    } else {
        Seq::empty()
    }) + (if m.super_key {
        "<Super>"@
    } else {
        Seq::empty()
    })
}

/// The preferred trigger offered to the portal: the modifier tags, then the
/// key (an ASCII character in lower case, or the portal name of a named key).
/// A non-ASCII character, or a function key the portal has no name for,
/// cannot be offered.
pub open spec fn portal_trigger_spec(s: Shortcut) -> Option<Seq<char>> {
    match s.key {
        ShortcutKey::Character(c) => if (c as u32) < 128 {
            Some(portal_modifiers_text(s.modifiers).push(ascii_lower(c)))
        } else {
            None
        },
        ShortcutKey::Named(n) => match n {
            NamedKey::F(k) => if 1 <= k <= 12 {
                Some(portal_modifiers_text(s.modifiers) + portal_name_spec(n))
            } else {
                None
            },
            _ => Some(portal_modifiers_text(s.modifiers) + portal_name_spec(n)),
        },
    }
}

pub fn portal_trigger(shortcut: Shortcut) -> (r: Result<String, ShortcutError>)
    ensures
        match portal_trigger_spec(shortcut) {
            Some(t) => r matches Ok(s) && s@ == t,
            None => r matches Err(ShortcutError::Unavailable),
        },
{
    let mut trigger: Vec<char> = Vec::new();
    if shortcut.modifiers.control {
        append_str(&mut trigger, "<Ctrl>");
    }
    if shortcut.modifiers.alt {
        append_str(&mut trigger, "<Alt>");
    }
    if shortcut.modifiers.shift {
        append_str(&mut trigger, "<Shift>");
    }
    if shortcut.modifiers.super_key {
        append_str(&mut trigger, "<Super>");
    }
    assert(trigger@ =~= portal_modifiers_text(shortcut.modifiers));
    match shortcut.key {
        ShortcutKey::Character(c) => {
            if (c as u32) < 128 {
                trigger.push(char_to_ascii_lowercase(c));
            } else {
                return Err(ShortcutError::Unavailable);
            }
        },
        ShortcutKey::Named(n) => {
            if let NamedKey::F(k) = n {
                if k < 1 || k > 12 {
                    return Err(ShortcutError::Unavailable);
                }
            }
            append_str(&mut trigger, n.portal_name());
        },
    }
    Ok(chars_to_string(&trigger))
}

/// The sender part of a portal request path: a D-Bus unique name without its
/// leading colon, with dots turned into underscores (`:1.823` gives `1_823`).
pub open spec fn sender_component_spec(unique_name: Seq<char>) -> Option<Seq<char>> {
    if unique_name.len() > 0 && unique_name[0] == ':' {
        Some(unique_name.skip(1).map_values(|c: char| if c == '.' { '_' } else { c }))
    } else {
        None
    }
}

pub fn request_sender_component(unique_name: &str) -> (r: Result<String, ShortcutError>)
    ensures
        match sender_component_spec(unique_name@) {
            Some(s) => r matches Ok(v) && v@ == s,
            None => r matches Err(e) && e@ == ShortcutErrorView::Failed(
                "invalid D-Bus unique name: "@ + unique_name@,
            ),
        },
{
    let c = str_chars(unique_name);
    if c.len() == 0 || c[0] != ':' {
        let mut m = str_chars("invalid D-Bus unique name: ");
        append_str(&mut m, unique_name);
        return Err(ShortcutError::Failed(chars_to_string(&m)));
    }
    let mut out: Vec<char> = Vec::new();
    let mut i: usize = 1;
    while i < c.len()
        invariant
            1 <= i <= c.len(),
            c@ == unique_name@,
            out@ =~= c@.subrange(1, i as int).map_values(|x: char| if x == '.' { '_' } else { x }),
        decreases c.len() - i,
    {
        let ch = c[i];
        out.push(if ch == '.' { '_' } else { ch });
        i = i + 1;
    }
    assert(c@.subrange(1, c.len() as int) == c@.skip(1));
    Ok(chars_to_string(&out))
}

/// The object path of a portal request: the prefix, the sender and the token.
pub open spec fn request_path_spec(unique_name: Seq<char>, handle_token: Seq<char>) -> Option<
    Seq<char>,
> {
    match sender_component_spec(unique_name) {
        Some(s) => Some(REQUEST_PATH_PREFIX@ + "/"@ + s + "/"@ + handle_token),
        None => None,
    }
}

/// The request path the portal will answer on, known before the call is made.
pub fn expected_request_path(unique_name: &str, handle_token: &str) -> (r: Result<
    String,
    ShortcutError,
>)
    ensures
        match request_path_spec(unique_name@, handle_token@) {
            Some(p) => r matches Ok(v) && v@ == p,
            None => r matches Err(ShortcutError::Failed(_)),
        },
{
    let sender = request_sender_component(unique_name)?;
    let mut p = str_chars(REQUEST_PATH_PREFIX);
    append_str(&mut p, "/");
    append_str(&mut p, sender.as_str());
    append_str(&mut p, "/");
    append_str(&mut p, handle_token);
    Ok(chars_to_string(&p))
}

/// A portal response code: 0 succeeded, 1 was cancelled, anything else failed.
pub open spec fn portal_response_spec(operation: Seq<char>, response: u32) -> Result<
    (),
    ShortcutErrorView,
> {
    if response == 0 {
        Ok(())
    } else if response == 1 {
        Err(ShortcutErrorView::Cancelled)
    } else if response == 2 {
        Err(ShortcutErrorView::Failed(operation + " failed in the portal"@))
    } else {
        Err(
            ShortcutErrorView::Failed(
                operation + " returned unknown response code "@ + decimal(response as nat),
            ),
        )
    }
}

pub fn check_portal_response(operation: &str, response: u32) -> (r: Result<(), ShortcutError>)
    ensures
        match portal_response_spec(operation@, response) {
            Ok(()) => r is Ok,
            Err(e) => r matches Err(f) && f@ == e,
        },
{
    if response == 0 {
        Ok(())
    } else if response == 1 {
        Err(ShortcutError::Cancelled)
    } else if response == 2 {
        let mut m = str_chars(operation);
        append_str(&mut m, " failed in the portal");
        Err(ShortcutError::Failed(chars_to_string(&m)))
    } else {
        let mut m = str_chars(operation);
        append_str(&mut m, " returned unknown response code ");
        let d = crate::focus_backend::decimal_u64(response as u64);
        append_chars(&mut m, &d);
        Err(ShortcutError::Failed(chars_to_string(&m)))
    }
}

/// Whether a D-Bus error says that the portal lacks the method or interface.
pub open spec fn method_unavailable_spec(message: Seq<char>) -> bool {
    contains(message, "UnknownMethod"@) || contains(message, "UnknownInterface"@) || contains(
        message,
        "No such interface"@,
    )
}

pub fn is_portal_method_unavailable(message: &str) -> (r: bool)
    ensures
        r == method_unavailable_spec(message@),
{
    let m = str_chars(message);
    contains_str(&m, "UnknownMethod") || contains_str(&m, "UnknownInterface") || contains_str(
        &m,
        "No such interface",
    )
}

/// The shortcut error for a failed portal method call, from the D-Bus
/// error's text: a missing method means the portal is unavailable.
pub fn map_portal_method_error(operation: &str, message: &str) -> (r: ShortcutError)
    ensures
        method_unavailable_spec(message@) ==> r@ == ShortcutErrorView::Unavailable,
        !method_unavailable_spec(message@) ==> r@ == ShortcutErrorView::Failed(
            operation@ + " failed: "@ + message@,
        ),
{
    if is_portal_method_unavailable(message) {
        ShortcutError::Unavailable
    } else {
        let mut m = str_chars(operation);
        append_str(&mut m, " failed: ");
        append_str(&mut m, message);
        ShortcutError::Failed(chars_to_string(&m))
    }
}

/// `getrandom::fill` on 16 bytes, read as a `u128` in native byte order:
/// random bits, or none when the operating system's random source fails.
/// Which bits come is chance, so nothing is stated of them.
#[verifier::external_body]
fn random_u128() -> (r: Option<u128>) {
    let mut bytes = [0u8; 16];
    match getrandom::fill(&mut bytes) {
        Ok(()) => Some(u128::from_ne_bytes(bytes)),
        Err(_) => None,
    }
}

/// A token made of the prefix, an underscore and the 32 hex digits of `bits`.
pub open spec fn token_text(prefix: Seq<char>, bits: u128) -> Seq<char> {
    prefix + "_"@ + uuid_simple_text(bits)
}

/// The bits of a random (version 4, RFC 4122 variant) UUID.
pub open spec fn is_v4_bits(bits: u128) -> bool {
    (bits >> 76u128) & 15u128 == 4u128 && (bits >> 62u128) & 3u128 == 2u128
}

/// Random bits made into a version 4 UUID: the version nibble set to 4 and
/// the variant bits to `10`, the rest kept.
pub fn v4_uuid_bits(random: u128) -> (r: u128)
    ensures
        r == (random & 0xFFFFFFFFFFFF4FFFBFFFFFFFFFFFFFFFu128) | 0x40008000000000000000u128,
        is_v4_bits(r),
{
    let r = (random & 0xFFFFFFFFFFFF4FFFBFFFFFFFFFFFFFFFu128) | 0x40008000000000000000u128;
    assert((r >> 76u128) & 15u128 == 4u128 && (r >> 62u128) & 3u128 == 2u128) by (bit_vector)
        requires
            r == (random & 0xFFFFFFFFFFFF4FFFBFFFFFFFFFFFFFFFu128) | 0x40008000000000000000u128,
    ;
    r
}

/// A fresh handle token: the prefix, an underscore and the hex digits of a
/// random version 4 UUID. Without random bytes from the system there is no
/// token.
pub fn next_token(prefix: &str) -> (r: Result<String, ShortcutError>)
    ensures
        r matches Ok(t) ==> exists|bits: u128| t@ == #[trigger] token_text(prefix@, bits) && is_v4_bits(bits),
        r matches Err(e) ==> e@ == ShortcutErrorView::Failed(
            "failed to read random bytes for a portal handle token"@,
        ),
{
    let random = match random_u128() {
        Some(v) => v,
        None => {
            let m = str_chars("failed to read random bytes for a portal handle token");
            return Err(ShortcutError::Failed(chars_to_string(&m)));
        },
    };
    let bits = v4_uuid_bits(random);
    let hex = format_uuid_simple(bits);
    let mut t = str_chars(prefix);
    append_str(&mut t, "_");
    append_str(&mut t, hex.as_str());
    assert(t@ == token_text(prefix@, bits));
    Ok(chars_to_string(&t))
}

/// Characters allowed in an object path element.
pub open spec fn path_safe(s: Seq<char>) -> bool {
    forall|i: int| 0 <= i < s.len() ==> is_ascii_alnum(#[trigger] s[i]) || s[i] == '_'
}

/// A token is safe inside an object path when its prefix is.
pub proof fn lemma_token_object_path_safe(prefix: Seq<char>, bits: u128)
    requires
        path_safe(prefix),
    ensures
        path_safe(token_text(prefix, bits)),
{
    reveal_strlit("_");
    let t = token_text(prefix, bits);
    let s = uuid_simple_text(bits);
    assert("_"@ == seq!['_']);
    assert(s.len() == 32);
    assert(t == prefix + seq!['_'] + s);
    assert(t.len() == prefix.len() + 33);
    assert forall|i: int| 0 <= i < t.len() implies is_ascii_alnum(#[trigger] t[i]) || t[i] == '_' by {
        if i < prefix.len() {
            assert(t[i] == prefix[i]);
        } else if i == prefix.len() {
            assert(t[i] == '_');
        } else {
            let j = i - prefix.len() - 1;
            assert(t[i] == s[j]);
            let sh = ((124 - 4 * j) as u128);
            let d = (bits >> sh) & 15u128;
            assert(d <= 15u128) by (bit_vector)
                requires
                    d == (bits >> sh) & 15u128,
            ;
            assert(s[j] == hex_digit(d as nat));
        }
    }
}

/// The shortcut the daemon asks the portal to bind: its id, description and
/// preferred trigger.
pub fn clipboard_history_shortcut(preferred_trigger: &str) -> (r: (String, String, String))
    ensures
        r.0@ == CLIPBOARD_HISTORY_SHORTCUT_ID@,
        r.1@ == CLIPBOARD_HISTORY_DESCRIPTION@,
        r.2@ == preferred_trigger@,
{
    let a = str_chars(CLIPBOARD_HISTORY_SHORTCUT_ID);
    let b = str_chars(CLIPBOARD_HISTORY_DESCRIPTION);
    let c = str_chars(preferred_trigger);
    (chars_to_string(&a), chars_to_string(&b), chars_to_string(&c))
}

/// Whether the portal bound the clipboard-history shortcut; without it the
/// registration is unavailable.
pub fn is_clipboard_history_bound(bound: &Vec<BoundShortcut>) -> (r: bool)
    ensures
        r == exists|i: int| 0 <= i < bound@.len() && (#[trigger] bound@[i]).id@
            == CLIPBOARD_HISTORY_SHORTCUT_ID@,
{
    for i in 0..bound.len()
        invariant
            forall|j: int| 0 <= j < i ==> (#[trigger] bound@[j]).id@ != CLIPBOARD_HISTORY_SHORTCUT_ID@,
    {
        let id = str_chars(bound[i].id.as_str());
        if crate::text::eq_str(&id, CLIPBOARD_HISTORY_SHORTCUT_ID) {
            return true;
        }
    }
    false
}

/// A second registration of the portal backend is refused.
pub fn already_registered_error() -> (r: ShortcutError)
    ensures
        r@ == ShortcutErrorView::Failed("Wayland shortcut backend is already registered"@),
{
    let v = str_chars("Wayland shortcut backend is already registered");
    ShortcutError::Failed(chars_to_string(&v))
}

/// Whether an `Activated` or `Deactivated` signal is the daemon's: from its
/// session and for the clipboard-history shortcut. Other signals are skipped.
pub fn is_own_signal(expected_session: &str, session: &str, shortcut_id: &str) -> (r: bool)
    ensures
        r == (session@ == expected_session@ && shortcut_id@ == CLIPBOARD_HISTORY_SHORTCUT_ID@),
{
    let a = str_chars(session);
    let b = str_chars(expected_session);
    if !crate::text::chars_eq(&a, &b) {
        return false;
    }
    let id = str_chars(shortcut_id);
    crate::text::eq_str(&id, CLIPBOARD_HISTORY_SHORTCUT_ID)
}

/// Whether the response subscription made before a request serves the path
/// the portal returned (it does when the portal used the predicted path;
/// otherwise a subscription to the returned path is needed).
pub fn reuses_prepared_subscription(returned_path: &str, expected_path: &str) -> (r: bool)
    ensures
        r == (returned_path@ == expected_path@),
{
    let a = str_chars(returned_path);
    let b = str_chars(expected_path);
    crate::text::chars_eq(&a, &b)
}

/// How waiting for a portal request's response failed.
#[derive(Debug)]
pub enum ResponseWaitFailure {
    /// The response stream reported an error.
    StreamFailed(String),
    /// The response stream ended without a response.
    StreamEnded,
    /// No response came in time.
    TimedOut,
    /// The response could not be decoded.
    Undecodable(String),
}

/// The error for a failed wait on `operation`'s response.
pub fn response_wait_error(operation: &str, failure: ResponseWaitFailure, timeout_secs: u64) -> (r:
    ShortcutError)
    ensures
        match failure {
            ResponseWaitFailure::StreamFailed(e) => r@ == ShortcutErrorView::Failed(
                operation@ + " response stream failed: "@ + e@,
            ),
            ResponseWaitFailure::StreamEnded => r@ == ShortcutErrorView::Failed(
                operation@ + " response stream ended unexpectedly"@,
            ),
            ResponseWaitFailure::TimedOut => r@ == ShortcutErrorView::TimedOut(
                operation@ + " did not complete within "@ + decimal(timeout_secs as nat) + " seconds"@,
            ),
            ResponseWaitFailure::Undecodable(e) => r@ == ShortcutErrorView::Failed(
                "failed to decode "@ + operation@ + " portal response: "@ + e@,
            ),
        },
{
    match failure {
        ResponseWaitFailure::StreamFailed(e) => {
            let mut m = str_chars(operation);
            append_str(&mut m, " response stream failed: ");
            append_str(&mut m, e.as_str());
            ShortcutError::Failed(chars_to_string(&m))
        },
        ResponseWaitFailure::StreamEnded => {
            let mut m = str_chars(operation);
            append_str(&mut m, " response stream ended unexpectedly");
            ShortcutError::Failed(chars_to_string(&m))
        },
        ResponseWaitFailure::TimedOut => {
            let mut m = str_chars(operation);
            append_str(&mut m, " did not complete within ");
            let d = crate::focus_backend::decimal_u64(timeout_secs);
            append_chars(&mut m, &d);
            append_str(&mut m, " seconds");
            ShortcutError::TimedOut(chars_to_string(&m))
        },
        ResponseWaitFailure::Undecodable(e) => {
            let mut m = str_chars("failed to decode ");
            append_str(&mut m, operation);
            append_str(&mut m, " portal response: ");
            append_str(&mut m, e.as_str());
            ShortcutError::Failed(chars_to_string(&m))
        },
    }
}

} // verus!

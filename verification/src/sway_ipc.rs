//! The framing of Sway's i3-compatible IPC: a message is the magic `i3-ipc`,
//! the payload length and the message type (both 32-bit little endian), then
//! the payload.
use vstd::prelude::*;

use crate::shortcut_backend::{ShortcutError, ShortcutErrorView};
use crate::text::{append_str, chars_to_string, str_chars};

verus! {

/// Message type `RUN_COMMAND`.
pub const RUN_COMMAND: u32 = 0;

/// Message type `GET_TREE`.
pub const GET_TREE: u32 = 4;

/// Message type `GET_CONFIG`.
pub const GET_CONFIG: u32 = 9;

/// The length of a message header.
pub const HEADER_LEN: usize = 14;

pub open spec fn magic_spec() -> Seq<u8> {
    seq![105u8, 51u8, 45u8, 105u8, 112u8, 99u8]
}

/// The magic bytes `i3-ipc`.
pub fn magic() -> (r: [u8; 6])
    ensures
        r@ == magic_spec(),
{
    let r = [105u8, 51u8, 45u8, 105u8, 112u8, 99u8];
    assert(r@ =~= magic_spec());
    r
}

/// The little-endian bytes of a 32-bit number.
pub open spec fn le_bytes(v: u32) -> Seq<u8> {
    seq![
        (v & 0xffu32) as u8,
        ((v >> 8u32) & 0xffu32) as u8,
        ((v >> 16u32) & 0xffu32) as u8,
        ((v >> 24u32) & 0xffu32) as u8,
    ]
}

/// The number that four little-endian bytes encode.
pub open spec fn le_value(b0: u8, b1: u8, b2: u8, b3: u8) -> u32 {
    ((b0 as u32) | ((b1 as u32) << 8u32) | ((b2 as u32) << 16u32) | ((b3 as u32) << 24u32))
}

/// A message: header, then payload. The length field is the payload length
/// as a 32-bit number.
pub open spec fn message_spec(msg_type: u32, payload: Seq<u8>) -> Seq<u8> {
    magic_spec() + le_bytes(payload.len() as u32) + le_bytes(msg_type) + payload
}

fn push_le(out: &mut Vec<u8>, v: u32)
    ensures
        final(out)@ == old(out)@ + le_bytes(v),
{
    let ghost start = out@;
    out.push((v & 0xffu32) as u8);
    out.push(((v >> 8u32) & 0xffu32) as u8);
    out.push(((v >> 16u32) & 0xffu32) as u8);
    out.push(((v >> 24u32) & 0xffu32) as u8);
    assert(out@ =~= start + le_bytes(v));
}

/// Frames a message of the given type.
pub fn encode_message(msg_type: u32, payload: &[u8]) -> (r: Vec<u8>)
    ensures
        r@ == message_spec(msg_type, payload@),
{
    let m = magic();
    let mut out: Vec<u8> = Vec::new();
    let mut i: usize = 0;
    while i < 6
        invariant
            i <= 6,
            m@ == magic_spec(),
            out@ =~= magic_spec().take(i as int),
        decreases 6 - i,
    {
        out.push(m[i]);
        i = i + 1;
    }
    assert(magic_spec().take(6) =~= magic_spec());
    push_le(&mut out, payload.len() as u32);
    push_le(&mut out, msg_type);
    let ghost head = out@;
    let mut j: usize = 0;
    while j < payload.len()
        invariant
            j <= payload.len(),
            out@ =~= head + payload@.take(j as int),
        decreases payload.len() - j,
    {
        out.push(payload[j]);
        j = j + 1;
    }
    assert(payload@.take(payload.len() as int) =~= payload@);
    out
}

/// What a response header says: the payload length, when the magic is right.
pub open spec fn header_payload_len(h: Seq<u8>) -> Option<u32> {
    if h.len() == 14 && h.take(6) == magic_spec() {
        Some(le_value(h[6], h[7], h[8], h[9]))
    } else {
        None
    }
}

/// Reads the payload length from a response header; a wrong magic is refused.
pub fn decode_header(header: &[u8; 14]) -> (r: Result<u32, String>)
    ensures
        match header_payload_len(header@) {
            Some(n) => r == Ok::<u32, String>(n),
            None => r matches Err(e) && e@ == "invalid Sway IPC response magic"@,
        },
{
    let m = magic();
    let mut i: usize = 0;
    while i < 6
        invariant
            i <= 6,
            m@ == magic_spec(),
            header@.len() == 14,
            forall|k: int| 0 <= k < i ==> header@[k] == magic_spec()[k],
        decreases 6 - i,
    {
        if header[i] != m[i] {
            assert(header@.take(6)[i as int] != magic_spec()[i as int]);
            return Err("invalid Sway IPC response magic".to_string());
        }
        i = i + 1;
    }
    assert(header@.take(6) =~= magic_spec());
    let v = (header[6] as u32) | ((header[7] as u32) << 8u32) | ((header[8] as u32) << 16u32) | ((
    header[9] as u32) << 24u32);
    Ok(v)
}

/// Four bytes written little endian read back as the same number.
pub proof fn lemma_le_round_trip(v: u32)
    ensures
        le_value(le_bytes(v)[0], le_bytes(v)[1], le_bytes(v)[2], le_bytes(v)[3]) == v,
{
    let b0 = (v & 0xffu32) as u8;
    let b1 = ((v >> 8u32) & 0xffu32) as u8;
    let b2 = ((v >> 16u32) & 0xffu32) as u8;
    let b3 = ((v >> 24u32) & 0xffu32) as u8;
    assert(((b0 as u32) | ((b1 as u32) << 8u32) | ((b2 as u32) << 16u32) | ((b3 as u32)
        << 24u32)) == v) by (bit_vector)
        requires
            b0 == (v & 0xffu32) as u8,
            b1 == ((v >> 8u32) & 0xffu32) as u8,
            b2 == ((v >> 16u32) & 0xffu32) as u8,
            b3 == ((v >> 24u32) & 0xffu32) as u8,
    ;
}

/// The header of a framed message reads back the payload length.
pub proof fn lemma_header_round_trip(msg_type: u32, payload: Seq<u8>)
    requires
        payload.len() <= u32::MAX,
    ensures
        header_payload_len(message_spec(msg_type, payload).take(14)) == Some(payload.len() as u32),
{
    let m = message_spec(msg_type, payload);
    let h = m.take(14);
    let n = payload.len() as u32;
    lemma_le_round_trip(n);
    assert(h.take(6) =~= magic_spec());
    assert(h[6] == le_bytes(n)[0]);
    assert(h[7] == le_bytes(n)[1]);
    assert(h[8] == le_bytes(n)[2]);
    assert(h[9] == le_bytes(n)[3]);
}

/// What `serde_json` reads from a reply payload: the string value of the
/// top-level object's field (none when the field is missing or no string),
/// or, when the payload is not JSON, the text of the parse error.
pub uninterp spec fn json_payload_field(payload: Seq<u8>, field: Seq<char>) -> Result<
    Option<Seq<char>>,
    Seq<char>,
>;

/// `serde_json::from_slice::<serde_json::Value>`, then `get(field)` and
/// `as_str()`: the field's string value, none when the payload is JSON but the
/// field is missing or no string, or the parse error's text.
#[verifier::external_body]
fn json_slice_field(payload: &[u8], field: &str) -> (r: Result<Option<String>, String>)
    ensures
        match (r, json_payload_field(payload@, field@)) {
            (Ok(Some(s)), Ok(Some(t))) => s@ == t,
            (Ok(None), Ok(None)) => true,
            (Err(e), Err(t)) => e@ == t,
            _ => false,
        },
{
    match serde_json::from_slice::<serde_json::Value>(payload) {
        Ok(v) => match v.get(field) {
            Some(x) => match x.as_str() {
                Some(s) => Ok(Some(s.to_string())),
                None => Ok(None),
            },
            None => Ok(None),
        },
        Err(e) => Err(e.to_string()),
    }
}

/// The configuration text in the payload of Sway's `GET_CONFIG` reply: its
/// `config` field; a reply that is no JSON, or lacks the field, is an error.
pub fn sway_config_from_reply(payload: &[u8]) -> (r: Result<String, ShortcutError>)
    ensures
        match json_payload_field(payload@, "config"@) {
            Ok(Some(c)) => r matches Ok(s) && s@ == c,
            Ok(None) => r matches Err(e) && e@ == ShortcutErrorView::Failed(
                "Sway GET_CONFIG missing 'config' field"@,
            ),
            Err(t) => r matches Err(e) && e@ == ShortcutErrorView::Failed(
                "failed parsing Sway response JSON: "@ + t,
            ),
        },
{
    match json_slice_field(payload, "config") {
        Ok(Some(c)) => Ok(c),
        Ok(None) => {
            let m = str_chars("Sway GET_CONFIG missing 'config' field");
            Err(ShortcutError::Failed(chars_to_string(&m)))
        },
        Err(t) => {
            let mut m = str_chars("failed parsing Sway response JSON: ");
            append_str(&mut m, t.as_str());
            Err(ShortcutError::Failed(chars_to_string(&m)))
        },
    }
}

} // verus!

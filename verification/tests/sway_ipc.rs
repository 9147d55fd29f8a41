use pookie_paste::shortcut_backend::ShortcutError;
use pookie_paste::sway_ipc::sway_config_from_reply;
use pookie_paste::sway_ipc::{decode_header, encode_message, magic, GET_CONFIG, GET_TREE, RUN_COMMAND};

#[test]
fn frames_messages() {
    assert_eq!(&magic(), b"i3-ipc");
    let m = encode_message(GET_CONFIG, b"");
    assert_eq!(m, b"i3-ipc\x00\x00\x00\x00\x09\x00\x00\x00".to_vec());
    let m = encode_message(RUN_COMMAND, b"[con_id=1] focus");
    assert_eq!(m.len(), 14 + 16);
    assert_eq!(&m[6..10], &16u32.to_le_bytes());
    assert_eq!(&m[10..14], &0u32.to_le_bytes());
    assert_eq!(&m[14..], b"[con_id=1] focus");
    assert_eq!(GET_TREE, 4);
}

#[test]
fn reads_response_headers() {
    let mut h = [0u8; 14];
    h.copy_from_slice(&encode_message(GET_TREE, &[7u8; 300])[..14]);
    assert_eq!(decode_header(&h), Ok(300));
    h[0] = b'x';
    assert_eq!(decode_header(&h), Err("invalid Sway IPC response magic".to_string()));
}

#[test]
fn get_config_reply_yields_its_config_text() {
    let reply = br#"{"config": "bindsym $mod+v exec pookie-paste --toggle\n"}"#;
    assert_eq!(
        sway_config_from_reply(reply).unwrap(),
        "bindsym $mod+v exec pookie-paste --toggle\n"
    );
    match sway_config_from_reply(br#"{"success": true}"#) {
        Err(ShortcutError::Failed(m)) => assert_eq!(m, "Sway GET_CONFIG missing 'config' field"),
        other => panic!("unexpected {other:?}"),
    }
    match sway_config_from_reply(br#"{"config": 7}"#) {
        Err(ShortcutError::Failed(m)) => assert_eq!(m, "Sway GET_CONFIG missing 'config' field"),
        other => panic!("unexpected {other:?}"),
    }
    match sway_config_from_reply(b"not json") {
        Err(ShortcutError::Failed(m)) => assert!(m.starts_with("failed parsing Sway response JSON: ")),
        other => panic!("unexpected {other:?}"),
    }
}

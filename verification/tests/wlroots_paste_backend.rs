use pookie_paste::wlroots_paste_backend::{
    backend_name, keymap_size, paste_key_events, KEY_LEFTCTRL, KEY_PRESS, KEY_RELEASE, KEY_V,
    XKB_KEYMAP_STRING,
};

#[test]
fn keycodes_match_linux_evdev_standard() {
    assert_eq!(KEY_LEFTCTRL, 29);
    assert_eq!(KEY_V, 47);
    assert_eq!(KEY_PRESS, 1);
    assert_eq!(KEY_RELEASE, 0);
}

#[test]
fn keymap_size_is_its_byte_length() {
    assert_eq!(keymap_size() as usize, XKB_KEYMAP_STRING.len());
    assert!(XKB_KEYMAP_STRING.contains("evdev+aliases(qwerty)"));
}

#[test]
fn paste_sends_ctrl_v() {
    assert_eq!(paste_key_events(), vec![(29, 1), (47, 1), (47, 0), (29, 0)]);
    assert_eq!(backend_name(), "Wayland wlroots virtual keyboard direct paste");
}

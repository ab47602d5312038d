use lan_mouse_grab::hid::HidState;
use lan_mouse_grab::keymap::{evdev_to_hid, is_modifier};

#[test]
fn key_a_maps_to_usage_4() {
    assert_eq!(evdev_to_hid(30), 0x04);
    assert_eq!(evdev_to_hid(1), 0x29);
    assert_eq!(evdev_to_hid(127), 0x65);
    assert_eq!(evdev_to_hid(84), 0x00);
    assert_eq!(evdev_to_hid(500), 0x00);
}

#[test]
fn modifier_bits() {
    assert_eq!(is_modifier(29), Some(0x01));
    assert_eq!(is_modifier(42), Some(0x02));
    assert_eq!(is_modifier(126), Some(0x80));
    assert_eq!(is_modifier(30), None);
}

#[test]
fn left_shift_toggles_modifier_only() {
    let mut s = HidState::new();
    s.handle_key(42, 1);
    assert_eq!(s.modifiers, 0x02);
    assert!(s.pressed_keys.is_empty());
    s.handle_key(42, 0);
    assert_eq!(s.modifiers, 0x00);
    assert!(s.pressed_keys.is_empty());
}

#[test]
fn press_twice_is_held_once() {
    let mut s = HidState::new();
    s.handle_key(30, 1);
    s.handle_key(30, 1);
    assert_eq!(s.pressed_keys, vec![0x04]);
    s.handle_key(30, 0);
    assert!(s.pressed_keys.is_empty());
}

#[test]
fn interleaved_presses_track_held_keys() {
    let mut s = HidState::new();
    s.handle_key(30, 1); // a
    s.handle_key(48, 1); // b
    s.handle_key(30, 0);
    s.handle_key(46, 1); // c
    s.handle_key(48, 1);
    s.handle_key(30, 1);
    assert_eq!(s.pressed_keys, vec![0x05, 0x06, 0x04]);
}

#[test]
fn unmapped_key_is_dropped() {
    let mut s = HidState::new();
    s.handle_key(84, 1);
    assert!(s.pressed_keys.is_empty());
    assert_eq!(s.modifiers, 0);
}

#[test]
fn keyboard_report_shift_a() {
    let mut s = HidState::new();
    s.handle_key(42, 1);
    s.handle_key(30, 1);
    assert_eq!(s.keyboard_report(), vec![0x02, 0x00, 0x04, 0, 0, 0, 0, 0]);
    assert_eq!(s.keyboard_boot_report(), vec![0x02, 0x00, 0x04, 0, 0, 0, 0, 0]);
    assert_eq!(
        s.keyboard_state().classic_bytes(),
        vec![0xA1, 0x01, 0x02, 0x00, 0x04, 0, 0, 0, 0, 0]
    );
    assert_eq!(s.keyboard_state().ble_bytes(), vec![0x02, 0x00, 0x04, 0, 0, 0, 0, 0]);
}

#[test]
fn seventh_key_is_held_but_not_reported() {
    let mut s = HidState::new();
    for code in [30u32, 48, 46, 32, 18, 33, 34] {
        s.handle_key(code, 1);
    }
    assert_eq!(s.pressed_keys.len(), 7);
    assert_eq!(s.keyboard_report(), vec![0, 0, 0x04, 0x05, 0x06, 0x07, 0x08, 0x09]);
}

#[test]
fn buttons_toggle_bits() {
    let mut s = HidState::new();
    s.handle_button(0x110, 1);
    s.handle_button(0x112, 1);
    assert_eq!(s.buttons, 0x05);
    s.handle_button(0x110, 0);
    assert_eq!(s.buttons, 0x04);
    s.handle_button(0x120, 1);
    assert_eq!(s.buttons, 0x04);
    s.handle_button(0x114, 1);
    assert_eq!(s.buttons, 0x14);
}

#[test]
fn mouse_reports_encode_signed_deltas() {
    let mut s = HidState::new();
    s.handle_button(0x111, 1);
    assert_eq!(s.mouse_report(-1, 127, -127), vec![0x02, 0xFF, 0x7F, 0x81]);
    assert_eq!(s.mouse_boot_report(5, -5), vec![0x02, 0x05, 0xFB]);
    let p = s.pointer_state(3, -3, 1);
    assert_eq!(p.ble_bytes(), vec![0x02, 3, 0xFD, 1]);
    assert_eq!(p.ble_boot_bytes(), vec![0x02, 3, 0xFD]);
    assert_eq!(p.classic_bytes(), vec![0xA1, 0x02, 0x02, 3, 0xFD, 1, 0x00]);
}

#[test]
fn media_and_extra_keys_map_to_standard_usages() {
    assert_eq!(evdev_to_hid(113), 0x7F);
    assert_eq!(evdev_to_hid(114), 0x81);
    assert_eq!(evdev_to_hid(115), 0x80);
    assert_eq!(evdev_to_hid(116), 0x66);
    assert_eq!(evdev_to_hid(117), 0x67);
    assert_eq!(evdev_to_hid(121), 0x85);
    assert_eq!(evdev_to_hid(89), 0x87);
    assert_eq!(evdev_to_hid(124), 0x89);
}

#[test]
fn volume_up_is_held_as_a_key() {
    let mut s = HidState::new();
    s.handle_key(115, 1);
    assert_eq!(s.keyboard_report(), vec![0, 0, 0x80, 0, 0, 0, 0, 0]);
    s.handle_key(115, 0);
    assert!(s.pressed_keys.is_empty());
}

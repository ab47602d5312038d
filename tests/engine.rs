use lan_mouse_grab::engine::{process_batch, InputEvent};
use lan_mouse_grab::hid::HidState;

const PX: i32 = 256;

#[test]
fn large_motion_is_clamped() {
    let mut s = HidState::new();
    let evs = vec![InputEvent::Motion { dx: 200 * PX, dy: -5 * PX }];
    let out = process_batch(&mut s, &evs);
    assert!(out.keyboard.is_none());
    let p = out.pointer.unwrap();
    assert_eq!((p.dx, p.dy, p.wheel), (127, -5, 0));
    assert_eq!(p.ble_bytes(), vec![0x00, 0x7F, 0xFB, 0x00]);
    assert_eq!(p.ble_boot_bytes(), vec![0x00, 0x7F, 0xFB]);
}

#[test]
fn fifty_motions_make_one_report() {
    let mut s = HidState::new();
    let evs: Vec<InputEvent> = (0..50).map(|_| InputEvent::Motion { dx: 3 * PX, dy: -PX / 2 }).collect();
    let out = process_batch(&mut s, &evs);
    assert!(out.keyboard.is_none());
    let p = out.pointer.unwrap();
    assert_eq!(p.dx, 127);
    assert_eq!(p.dy, -25);
    assert_eq!(p.buttons, 0);
}

#[test]
fn fifty_pixel_motions_make_one_report() {
    let mut s = HidState::new();
    let evs: Vec<InputEvent> = (0..50).map(|_| InputEvent::Motion { dx: 3 * PX, dy: -PX }).collect();
    let out = process_batch(&mut s, &evs);
    assert!(out.keyboard.is_none());
    let p = out.pointer.unwrap();
    assert_eq!(p.ble_bytes(), vec![0x00, 0x7F, 0xCE, 0x00]);
    assert_eq!(p.ble_boot_bytes(), vec![0x00, 0x7F, 0xCE]);
}

#[test]
fn sub_pixel_motion_accumulates() {
    let mut s = HidState::new();
    let evs = vec![
        InputEvent::Motion { dx: PX / 2, dy: -PX / 2 },
        InputEvent::Motion { dx: PX / 2, dy: -PX / 4 },
        InputEvent::Motion { dx: PX / 4, dy: 0 },
    ];
    let out = process_batch(&mut s, &evs);
    let p = out.pointer.unwrap();
    assert_eq!((p.dx, p.dy), (1, 0));
}

#[test]
fn wheel_sums_axis_and_notches() {
    let mut s = HidState::new();
    let evs = vec![
        InputEvent::Axis { axis: 0, value: 10 },
        InputEvent::AxisDiscrete120 { axis: 0, value: 240 },
        InputEvent::AxisDiscrete120 { axis: 0, value: -130 },
        InputEvent::Axis { axis: 1, value: 50 },
    ];
    let out = process_batch(&mut s, &evs);
    let p = out.pointer.unwrap();
    assert_eq!(p.wheel, 10 - 2 + 1);
    assert_eq!((p.dx, p.dy), (0, 0));
}

#[test]
fn wheel_is_clamped() {
    let mut s = HidState::new();
    let evs = vec![InputEvent::Axis { axis: 0, value: -1000 }];
    let out = process_batch(&mut s, &evs);
    assert_eq!(out.pointer.unwrap().wheel, -127);
}

#[test]
fn horizontal_axis_alone_sends_nothing() {
    let mut s = HidState::new();
    let evs = vec![InputEvent::Axis { axis: 1, value: 5 }, InputEvent::Modifiers];
    let out = process_batch(&mut s, &evs);
    assert!(out.keyboard.is_none());
    assert!(out.pointer.is_none());
}

#[test]
fn keys_and_buttons_in_one_batch() {
    let mut s = HidState::new();
    let evs = vec![
        InputEvent::Key { key: 42, state: 1 },
        InputEvent::Key { key: 30, state: 1 },
        InputEvent::Button { button: 0x110, state: 1 },
        InputEvent::Key { key: 48, state: 1 },
        InputEvent::Key { key: 48, state: 0 },
    ];
    let out = process_batch(&mut s, &evs);
    let k = out.keyboard.unwrap();
    assert_eq!(k.ble_bytes(), vec![0x02, 0x00, 0x04, 0, 0, 0, 0, 0]);
    let p = out.pointer.unwrap();
    assert_eq!(p.ble_bytes(), vec![0x01, 0, 0, 0]);
    assert_eq!(s.pressed_keys, vec![0x04]);
}

#[test]
fn unknown_button_still_sends_pointer_report() {
    let mut s = HidState::new();
    let evs = vec![InputEvent::Button { button: 0x200, state: 1 }];
    let out = process_batch(&mut s, &evs);
    assert_eq!(out.pointer.unwrap().buttons, 0);
}

#[test]
fn empty_batch_sends_nothing() {
    let mut s = HidState::new();
    let out = process_batch(&mut s, &Vec::new());
    assert!(out.keyboard.is_none());
    assert!(out.pointer.is_none());
}

//! Transport-neutral HID reports and their framing for BLE (HOGP) and for
//! classic Bluetooth HIDP.
use vstd::prelude::*;

use crate::hid::{delta_byte, key_slots, to_delta_byte, HidState, KEY_SLOTS};

verus! {

/// HIDP header byte of a DATA transaction carrying an input report.
pub const HIDP_DATA_INPUT: u8 = 0xA1;

/// Report ID of the keyboard report in the report map.
pub const REPORT_ID_KEYBOARD: u8 = 0x01;

/// Report ID of the mouse report in the report map.
pub const REPORT_ID_MOUSE: u8 = 0x02;

/// A keyboard input report: modifier byte and six key slots.
pub struct KeyboardReport {
    pub modifiers: u8,
    pub keys: Vec<u8>,
}

/// A mouse input report: button mask and signed per-report deltas.
#[derive(Clone, Copy, Debug, PartialEq, Eq, Structural)]
pub struct PointerReport {
    pub buttons: u8,
    pub dx: i8,
    pub dy: i8,
    pub wheel: i8,
}

impl KeyboardReport {
    /// The report as it travels over BLE: `[modifiers, 0x00, key1..key6]`.
    pub fn ble_bytes(&self) -> (r: Vec<u8>)
        requires
            self.keys@.len() == KEY_SLOTS,
        ensures
            r@ == seq![self.modifiers, 0u8] + self.keys@,
    {
        let mut out: Vec<u8> = Vec::new();
        out.push(self.modifiers);
        out.push(0u8);
        append_all(&mut out, &self.keys);
        out
    }

    /// The report as a classic HIDP frame:
    /// `[0xA1, 0x01, modifiers, 0x00, key1..key6]`.
    pub fn classic_bytes(&self) -> (r: Vec<u8>)
        requires
            self.keys@.len() == KEY_SLOTS,
        ensures
            r@ == seq![HIDP_DATA_INPUT, REPORT_ID_KEYBOARD, self.modifiers, 0u8] + self.keys@,
    {
        let mut out: Vec<u8> = Vec::new();
        out.push(HIDP_DATA_INPUT);
        out.push(REPORT_ID_KEYBOARD);
        out.push(self.modifiers);
        out.push(0u8);
        append_all(&mut out, &self.keys);
        out
    }
}

impl PointerReport {
    /// The report as it travels over BLE in report mode: `[buttons, dx, dy, wheel]`.
    pub fn ble_bytes(&self) -> (r: Vec<u8>)
        ensures
            r@ == seq![self.buttons, delta_byte(self.dx), delta_byte(self.dy), delta_byte(self.wheel)],
    {
        vec![self.buttons, to_delta_byte(self.dx), to_delta_byte(self.dy), to_delta_byte(self.wheel)]
    }

    /// The report as it travels over BLE in boot mode: `[buttons, dx, dy]`.
    pub fn ble_boot_bytes(&self) -> (r: Vec<u8>)
        ensures
            r@ == seq![self.buttons, delta_byte(self.dx), delta_byte(self.dy)],
    {
        vec![self.buttons, to_delta_byte(self.dx), to_delta_byte(self.dy)]
    }

    /// The report as a classic HIDP frame:
    /// `[0xA1, 0x02, buttons, dx, dy, wheel, 0x00]`.
    pub fn classic_bytes(&self) -> (r: Vec<u8>)
        ensures
            r@ == seq![
                HIDP_DATA_INPUT,
                REPORT_ID_MOUSE,
                self.buttons,
                delta_byte(self.dx),
                delta_byte(self.dy),
                delta_byte(self.wheel),
                0u8,
            ],
    {
        vec![
            HIDP_DATA_INPUT,
            REPORT_ID_MOUSE,
            self.buttons,
            to_delta_byte(self.dx),
            to_delta_byte(self.dy),
            to_delta_byte(self.wheel),
            0u8,
        ]
    }
}

impl HidState {
    /// The keyboard report of the current state; keys past the sixth are
    /// held in the state but left out of the report.
    pub fn keyboard_state(&self) -> (r: KeyboardReport)
        ensures
            r.modifiers == self.modifiers,
            r.keys@ == key_slots(self.pressed_keys@),
    {
        let mut keys: Vec<u8> = Vec::new();
        let mut i: usize = 0;
        while i < KEY_SLOTS
            invariant
                i <= KEY_SLOTS,
                keys@ =~= key_slots(self.pressed_keys@).subrange(0, i as int),
            decreases KEY_SLOTS - i,
        {
            if i < self.pressed_keys.len() {
                keys.push(self.pressed_keys[i]);
            } else {
                keys.push(0u8);
            }
            i = i + 1;
        }
        assert(keys@ =~= key_slots(self.pressed_keys@));
        KeyboardReport { modifiers: self.modifiers, keys }
    }

    /// The mouse report of the current buttons with the given deltas.
    pub fn pointer_state(&self, dx: i8, dy: i8, wheel: i8) -> (r: PointerReport)
        ensures
            r == (PointerReport { buttons: self.buttons, dx, dy, wheel }),
    {
        PointerReport { buttons: self.buttons, dx, dy, wheel }
    }
}

/// Appends every byte of `src` to `dst`.
fn append_all(dst: &mut Vec<u8>, src: &Vec<u8>)
    ensures
        final(dst)@ == old(dst)@ + src@,
{
    let mut i: usize = 0;
    while i < src.len()
        invariant
            i <= src@.len(),
            dst@ =~= old(dst)@ + src@.subrange(0, i as int),
        decreases src@.len() - i,
    {
        dst.push(src[i]);
        i = i + 1;
    }
    assert(src@.subrange(0, src@.len() as int) =~= src@);
}

} // verus!

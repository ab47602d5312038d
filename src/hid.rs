//! Keyboard and mouse state of the emulated HID device, and the report
//! bytes it produces for each Bluetooth transport.
use vstd::prelude::*;

use crate::keymap::{evdev_to_hid, hid_usage, is_modifier, modifier_bit};

verus! {

/// Number of key slots in a boot-protocol keyboard report.
pub const KEY_SLOTS: usize = 6;

/// Abstract value of a [`HidState`].
pub ghost struct HidModel {
    pub modifiers: u8,
    pub keys: Seq<u8>,
    pub buttons: u8,
}

impl HidModel {
    /// No key is held twice and the null usage is never held.
    pub open spec fn wf(self) -> bool {
        &&& self.keys.no_duplicates()
        &&& !self.keys.contains(0u8)
    }

    /// The model with nothing pressed.
    pub open spec fn empty() -> HidModel {
        HidModel { modifiers: 0, keys: Seq::empty(), buttons: 0 }
    }
}

/// Predicate that keeps every usage but `key`.
pub open spec fn other_than(key: u8) -> spec_fn(u8) -> bool {
    |k: u8| k != key
}

/// Sets or clears `bit` in `mask`.
pub open spec fn toggle_bit(mask: u8, bit: u8, down: bool) -> u8 {
    if down {
        mask | bit
    } else {
        mask & !bit
    }
}

/// The effect of one key event (evdev code, press state) on the model.
pub open spec fn key_step(m: HidModel, code: u32, state: u8) -> HidModel {
    match modifier_bit(code) {
        Some(bit) => HidModel { modifiers: toggle_bit(m.modifiers, bit, state != 0), ..m },
        None => {
            let h = hid_usage(code);
            if h == 0 {
                m
            } else if state != 0 {
                if m.keys.contains(h) {
                    m
                } else {
                    HidModel { keys: m.keys.push(h), ..m }
                }
            } else {
                HidModel { keys: m.keys.filter(other_than(h)), ..m }
            }
        },
    }
}

/// The mouse-button bit of an evdev button code (left, right, middle, side, extra).
pub open spec fn button_bit(code: u32) -> Option<u8> {
    match code {
        0x110 => Some(0x01u8),
        0x111 => Some(0x02u8),
        0x112 => Some(0x04u8),
        0x113 => Some(0x08u8),
        0x114 => Some(0x10u8),
        _ => None,
    }
}

/// The effect of one button event (evdev code, press state) on the model.
pub open spec fn button_step(m: HidModel, code: u32, state: u32) -> HidModel {
    match button_bit(code) {
        Some(bit) => HidModel { buttons: toggle_bit(m.buttons, bit, state != 0), ..m },
        None => m,
    }
}

/// The six key slots of a keyboard report: the first six held keys, then zeros.
pub open spec fn key_slots(keys: Seq<u8>) -> Seq<u8> {
    Seq::new(KEY_SLOTS as nat, |i: int| if i < keys.len() { keys[i] } else { 0u8 })
}

/// The 8-byte keyboard report: modifiers, a reserved zero byte, six key slots.
pub open spec fn keyboard_bytes(m: HidModel) -> Seq<u8> {
    seq![m.modifiers, 0u8] + key_slots(m.keys)
}

/// The byte that carries a signed report delta: its two's complement.
pub open spec fn delta_byte(d: i8) -> u8 {
    (if d < 0 {
        d + 256
    } else {
        d as int
    }) as u8
}

/// Encodes a signed report delta as its two's-complement byte.
pub fn to_delta_byte(d: i8) -> (r: u8)
    ensures
        r == delta_byte(d),
        r as int == if d < 0 { d + 256 } else { d as int },
{
    if d < 0 {
        (d as i16 + 256) as u8
    } else {
        d as u8
    }
}

/// State of the emulated keyboard and mouse.
pub struct HidState {
    pub modifiers: u8,
    pub pressed_keys: Vec<u8>,
    pub buttons: u8,
}

impl View for HidState {
    type V = HidModel;

    open spec fn view(&self) -> HidModel {
        HidModel { modifiers: self.modifiers, keys: self.pressed_keys@, buttons: self.buttons }
    }
}

impl HidState {
    /// A state with no modifier, key or button held.
    pub fn new() -> (r: HidState)
        ensures
            r@ == HidModel::empty(),
            r@.wf(),
    {
        HidState { modifiers: 0, pressed_keys: Vec::new(), buttons: 0 }
    }

    /// The six key slots of the current keyboard report.
    fn write_key_slots(&self, pkt: &mut Vec<u8>)
        requires
            old(pkt)@.len() == 8,
            forall|i: int| 2 <= i < 8 ==> old(pkt)@[i] == 0u8,
        ensures
            final(pkt)@ == old(pkt)@.subrange(0, 2) + key_slots(self.pressed_keys@),
    {
        let n = if self.pressed_keys.len() < KEY_SLOTS {
            self.pressed_keys.len()
        } else {
            KEY_SLOTS
        };
        let mut i: usize = 0;
        while i < n
            invariant
                n <= KEY_SLOTS,
                n <= self.pressed_keys@.len(),
                n == self.pressed_keys@.len() || n == KEY_SLOTS,
                i <= n,
                pkt@.len() == 8,
                pkt@[0] == old(pkt)@[0],
                pkt@[1] == old(pkt)@[1],
                forall|k: int| 2 <= k < 2 + i ==> pkt@[k] == self.pressed_keys@[k - 2],
                forall|k: int| 2 + i <= k < 8 ==> pkt@[k] == 0u8,
            decreases n - i,
        {
            pkt.set(2 + i, self.pressed_keys[i]);
            i = i + 1;
        }
        assert(pkt@ =~= old(pkt)@.subrange(0, 2) + key_slots(self.pressed_keys@));
    }

    /// Keyboard input report for BLE report mode:
    /// `[modifiers, 0, key1..key6]`; the report ID travels in a GATT descriptor.
    pub fn keyboard_report(&self) -> (r: Vec<u8>)
        ensures
            r@ == keyboard_bytes(self@),
    {
        let mut pkt: Vec<u8> = vec![0u8; 8];
        pkt.set(0, self.modifiers);
        self.write_key_slots(&mut pkt);
        assert(pkt@ =~= keyboard_bytes(self@));
        pkt
    }

    /// Keyboard input report for BLE boot mode; same layout as report mode.
    pub fn keyboard_boot_report(&self) -> (r: Vec<u8>)
        ensures
            r@ == keyboard_bytes(self@),
    {
        let mut pkt: Vec<u8> = vec![0u8; 8];
        pkt.set(0, self.modifiers);
        self.write_key_slots(&mut pkt);
        assert(pkt@ =~= keyboard_bytes(self@));
        pkt
    }

    /// Mouse input report for BLE report mode: `[buttons, dx, dy, wheel]`.
    pub fn mouse_report(&self, dx: i8, dy: i8, wheel: i8) -> (r: Vec<u8>)
        ensures
            r@ == seq![self.buttons, delta_byte(dx), delta_byte(dy), delta_byte(wheel)],
    {
        vec![self.buttons, to_delta_byte(dx), to_delta_byte(dy), to_delta_byte(wheel)]
    }

    /// Mouse input report for BLE boot mode: `[buttons, dx, dy]`, no wheel.
    pub fn mouse_boot_report(&self, dx: i8, dy: i8) -> (r: Vec<u8>)
        ensures
            r@ == seq![self.buttons, delta_byte(dx), delta_byte(dy)],
    {
        vec![self.buttons, to_delta_byte(dx), to_delta_byte(dy)]
    }

    /// Applies one key event: a modifier toggles its bit; any other key is
    /// mapped to its HID usage and added on press (once) or removed on
    /// release; a key without a usage is ignored.
    pub fn handle_key(&mut self, key: u32, state: u8)
        requires
            old(self)@.wf(),
        ensures
            final(self)@ == key_step(old(self)@, key, state),
            final(self)@.wf(),
    {
        if let Some(mod_bit) = is_modifier(key) {
            if state != 0 {
                self.modifiers = self.modifiers | mod_bit;
            } else {
                self.modifiers = self.modifiers & !mod_bit;
            }
            return;
        }
        let hid = evdev_to_hid(key);
        if hid == 0 {
            return;
        }
        if state != 0 {
            if !contains_key(&self.pressed_keys, hid) {
                self.pressed_keys.push(hid);
            }
        } else {
            let kept = without_key(&self.pressed_keys, hid);
            proof {
                lemma_without_key(self.pressed_keys@, hid);
            }
            self.pressed_keys = kept;
        }
    }

    /// Applies one button event: a known button code sets or clears its bit.
    pub fn handle_button(&mut self, button: u32, state: u32)
        requires
            old(self)@.wf(),
        ensures
            final(self)@ == button_step(old(self)@, button, state),
            final(self)@.wf(),
    {
        let bit: u8 = match button {
            0x110 => 0x01,
            0x111 => 0x02,
            0x112 => 0x04,
            0x113 => 0x08,
            0x114 => 0x10,
            _ => return ,
        };
        if state != 0 {
            self.buttons = self.buttons | bit;
        } else {
            self.buttons = self.buttons & !bit;
        }
    }
}

/// Removing one key keeps the sequence free of duplicates, and what remains is
/// exactly the other keys.
pub proof fn lemma_without_key(keys: Seq<u8>, key: u8)
    requires
        keys.no_duplicates(),
    ensures
        keys.filter(other_than(key)).no_duplicates(),
        forall|x: u8|
            #![trigger keys.filter(other_than(key)).contains(x)]
            keys.filter(other_than(key)).contains(x) <==> (keys.contains(x) && x != key),
    decreases keys.len(),
{
    let p = other_than(key);
    if keys.len() > 0 {
        let init = keys.drop_last();
        let last = keys.last();
        assert(init.no_duplicates());
        lemma_without_key(init, key);
        init.lemma_filter_push(last, p);
        assert(init.push(last) =~= keys);
        assert(!init.contains(last));
        assert forall|x: u8| keys.contains(x) <==> (init.contains(x) || x == last) by {
            if keys.contains(x) {
                let j = choose|j: int| 0 <= j < keys.len() && keys[j] == x;
                if j < keys.len() - 1 {
                    assert(init[j] == x);
                }
            }
            if init.contains(x) {
                let j = choose|j: int| 0 <= j < init.len() && init[j] == x;
                assert(keys[j] == x);
            }
        }
        let f = init.filter(p);
        if p(last) {
            assert(keys.filter(p) == f.push(last));
            assert(!f.contains(last));
            assert forall|i: int, j: int|
                0 <= i < f.push(last).len() && 0 <= j < f.push(last).len() && i != j implies
                #[trigger] f.push(last)[i] != #[trigger] f.push(last)[j] by {
                if i < f.len() && j < f.len() {
                } else if i < f.len() {
                    assert(f.contains(f[i]));
                } else if j < f.len() {
                    assert(f.contains(f[j]));
                }
            }
            assert forall|x: u8| #[trigger] f.push(last).contains(x) <==> (f.contains(x) || x == last) by {
                if f.push(last).contains(x) {
                    let j = choose|j: int| 0 <= j < f.push(last).len() && f.push(last)[j] == x;
                    if j < f.len() {
                        assert(f[j] == x);
                    }
                }
                if f.contains(x) {
                    let j = choose|j: int| 0 <= j < f.len() && f[j] == x;
                    assert(f.push(last)[j] == x);
                }
                if x == last {
                    assert(f.push(last)[f.len() as int] == x);
                }
            }
        } else {
            assert(keys.filter(p) == f);
        }
    } else {
        assert(keys.filter(p) =~= Seq::<u8>::empty()) by {
            reveal(Seq::filter);
        }
    }
}

/// One key event keeps the model well formed, and changes whether a usage is
/// held only for the usage of that key (when it is not a modifier).
pub proof fn lemma_key_step(m: HidModel, code: u32, state: u8)
    requires
        m.wf(),
    ensures
        key_step(m, code, state).wf(),
        key_step(m, code, state).buttons == m.buttons,
        forall|u: u8|
            #![trigger key_step(m, code, state).keys.contains(u)]
            key_step(m, code, state).keys.contains(u) <==> if modifier_bit(code) is None && u != 0
                && hid_usage(code) == u {
                state != 0
            } else {
                m.keys.contains(u)
            },
{
    let h = hid_usage(code);
    if modifier_bit(code) is None && h != 0 {
        if state != 0 {
            if !m.keys.contains(h) {
                let k = m.keys.push(h);
                assert forall|u: u8| #[trigger] k.contains(u) <==> (m.keys.contains(u) || u == h) by {
                    if k.contains(u) {
                        let j = choose|j: int| 0 <= j < k.len() && k[j] == u;
                        if j < m.keys.len() {
                            assert(m.keys[j] == u);
                        }
                    }
                    if m.keys.contains(u) {
                        let j = choose|j: int| 0 <= j < m.keys.len() && m.keys[j] == u;
                        assert(k[j] == u);
                    }
                    if u == h {
                        assert(k[m.keys.len() as int] == u);
                    }
                }
                assert forall|i: int, j: int|
                    0 <= i < k.len() && 0 <= j < k.len() && i != j implies #[trigger] k[i]
                    != #[trigger] k[j] by {
                    if i < m.keys.len() && j < m.keys.len() {
                    } else if i < m.keys.len() {
                        assert(m.keys.contains(k[i]));
                    } else if j < m.keys.len() {
                        assert(m.keys.contains(k[j]));
                    }
                }
            }
        } else {
            lemma_without_key(m.keys, h);
        }
    }
}

/// Left shift (evdev 42) only sets or clears modifier bit 0x02: the held keys
/// and buttons stay as they were, so its usage never enters them.
pub proof fn lemma_left_shift_is_modifier(m: HidModel, state: u8)
    ensures
        key_step(m, 42, state) == (HidModel {
            modifiers: toggle_bit(m.modifiers, 0x02, state != 0),
            ..m
        }),
{
}

/// Whether `key` is among `keys`.
fn contains_key(keys: &Vec<u8>, key: u8) -> (r: bool)
    ensures
        r == keys@.contains(key),
{
    let mut i: usize = 0;
    while i < keys.len()
        invariant
            i <= keys@.len(),
            forall|j: int| 0 <= j < i ==> keys@[j] != key,
        decreases keys@.len() - i,
    {
        if keys[i] == key {
            return true;
        }
        i = i + 1;
    }
    false
}

/// `keys` with every occurrence of `key` removed, order kept.
fn without_key(keys: &Vec<u8>, key: u8) -> (r: Vec<u8>)
    ensures
        r@ == keys@.filter(other_than(key)),
{
    let mut out: Vec<u8> = Vec::new();
    let mut i: usize = 0;
    while i < keys.len()
        invariant
            i <= keys@.len(),
            out@ == keys@.subrange(0, i as int).filter(other_than(key)),
        decreases keys@.len() - i,
    {
        proof {
            keys@.subrange(0, i as int).lemma_filter_push(keys@[i as int], other_than(key));
            assert(keys@.subrange(0, i + 1) =~= keys@.subrange(0, i as int).push(keys@[i as int]));
        }
        if keys[i] != key {
            out.push(keys[i]);
        }
        i = i + 1;
    }
    assert(keys@.subrange(0, keys@.len() as int) =~= keys@);
    out
}

} // verus!

//! The emulation engine's batch step: every event queued at one wake is
//! folded into the HID state, and at most one keyboard report and one
//! pointer report come out.
use vstd::prelude::*;

use crate::hid::{button_step, key_slots, key_step, lemma_key_step, HidModel, HidState};
use crate::keymap::{hid_usage, modifier_bit};
use crate::report::{KeyboardReport, PointerReport};

verus! {

/// Pointer motion is carried in fixed point: this many units make one pixel.
pub const MOTION_UNITS_PER_PIXEL: i32 = 256;

/// Discrete wheel events count this many units per notch.
pub const WHEEL_UNITS_PER_NOTCH: i32 = 120;

/// Largest magnitude a delta may have in one report.
pub const MAX_REPORT_DELTA: i32 = 127;

/// One captured input event, as the engine reads it.
#[allow(inconsistent_fields)]
#[derive(Clone, Copy, Debug, PartialEq, Eq, Structural)]
pub enum InputEvent {
    /// A key went down (`state != 0`) or up.
    Key { key: u32, state: u8 },
    /// The compositor's modifier summary; the engine tracks modifiers from key events.
    Modifiers,
    /// Relative motion in units of 1/256 pixel.
    Motion { dx: i32, dy: i32 },
    /// A button went down (`state != 0`) or up.
    Button { button: u32, state: u32 },
    /// Continuous scroll on an axis; axis 0 is the vertical wheel.
    Axis { axis: u8, value: i32 },
    /// Discrete scroll on an axis, 120 per notch.
    AxisDiscrete120 { axis: u8, value: i32 },
}

/// What a batch delivers: a keyboard report if any key event came in, and a
/// pointer report if motion, vertical scroll or a button event came in.
pub struct BatchReports {
    pub keyboard: Option<KeyboardReport>,
    pub pointer: Option<PointerReport>,
}

/// Running totals of a batch.
pub ghost struct BatchTotals {
    pub dx: int,
    pub dy: int,
    pub wheel: int,
    pub keyboard: bool,
    pub pointer: bool,
}

/// The effect of one event on the HID state.
pub open spec fn event_step(m: HidModel, e: InputEvent) -> HidModel {
    match e {
        InputEvent::Key { key, state } => key_step(m, key, state),
        InputEvent::Button { button, state } => button_step(m, button, state),
        _ => m,
    }
}

/// The HID state after the events, applied in order.
pub open spec fn apply_events(m: HidModel, evs: Seq<InputEvent>) -> HidModel
    decreases evs.len(),
{
    if evs.len() == 0 {
        m
    } else {
        event_step(apply_events(m, evs.drop_last()), evs.last())
    }
}

/// Integer division rounding toward zero.
pub open spec fn div_toward_zero(a: int, d: int) -> int {
    if a >= 0 {
        a / d
    } else {
        -((-a) / d)
    }
}

/// How one event changes the batch totals.
pub open spec fn totals_step(t: BatchTotals, e: InputEvent) -> BatchTotals {
    match e {
        InputEvent::Key { .. } => BatchTotals { keyboard: true, ..t },
        InputEvent::Motion { dx, dy } => BatchTotals {
            dx: t.dx + dx,
            dy: t.dy + dy,
            pointer: true,
            ..t
        },
        InputEvent::Button { .. } => BatchTotals { pointer: true, ..t },
        InputEvent::Axis { axis, value } => if axis == 0 {
            BatchTotals { wheel: t.wheel + value, pointer: true, ..t }
        } else {
            t
        },
        InputEvent::AxisDiscrete120 { axis, value } => if axis == 0 {
            BatchTotals {
                wheel: t.wheel - div_toward_zero(value as int, WHEEL_UNITS_PER_NOTCH as int),
                pointer: true,
                ..t
            }
        } else {
            t
        },
        InputEvent::Modifiers => t,
    }
}

/// Totals of a whole batch.
pub open spec fn batch_totals(evs: Seq<InputEvent>) -> BatchTotals
    decreases evs.len(),
{
    if evs.len() == 0 {
        BatchTotals { dx: 0, dy: 0, wheel: 0, keyboard: false, pointer: false }
    } else {
        totals_step(batch_totals(evs.drop_last()), evs.last())
    }
}

/// `v` limited to the signed-byte range that a report can carry.
pub open spec fn clamp_delta(v: int) -> int {
    if v > MAX_REPORT_DELTA {
        MAX_REPORT_DELTA as int
    } else if v < -MAX_REPORT_DELTA {
        -MAX_REPORT_DELTA
    } else {
        v
    }
}

/// The report delta of an accumulated motion total: whole pixels, rounded
/// toward zero, then clamped.
pub open spec fn motion_delta(total: int) -> int {
    clamp_delta(div_toward_zero(total, MOTION_UNITS_PER_PIXEL as int))
}

/// Limits `v` to the report range and narrows it to a byte.
fn clamp_to_i8(v: i128) -> (r: i8)
    ensures
        r as int == clamp_delta(v as int),
{
    if v > 127 {
        127
    } else if v < -127 {
        -127
    } else {
        v as i8
    }
}

/// Folds a batch of queued events into `state` and builds the reports to
/// deliver: exactly one keyboard report if any key event was in the batch,
/// exactly one pointer report if any motion, vertical scroll or button event
/// was, with motion and wheel summed over the batch and clamped per report.
pub fn process_batch(state: &mut HidState, events: &Vec<InputEvent>) -> (r: BatchReports)
    requires
        old(state)@.wf(),
    ensures
        final(state)@ == apply_events(old(state)@, events@),
        final(state)@.wf(),
        r.keyboard is Some <==> batch_totals(events@).keyboard,
        r.pointer is Some <==> batch_totals(events@).pointer,
        r.keyboard matches Some(k) ==> {
            &&& k.modifiers == final(state)@.modifiers
            &&& k.keys@ == key_slots(final(state)@.keys)
        },
        r.pointer matches Some(p) ==> {
            &&& p.buttons == final(state)@.buttons
            &&& p.dx as int == motion_delta(batch_totals(events@).dx)
            &&& p.dy as int == motion_delta(batch_totals(events@).dy)
            &&& p.wheel as int == clamp_delta(batch_totals(events@).wheel)
        },
{
    let ghost start = state@;
    let mut acc_dx: i128 = 0;
    let mut acc_dy: i128 = 0;
    let mut acc_wheel: i128 = 0;
    let mut kb_changed = false;
    let mut ptr_changed = false;
    let mut i: usize = 0;
    while i < events.len()
        invariant
            i <= events@.len(),
            state@.wf(),
            state@ == apply_events(start, events@.subrange(0, i as int)),
            acc_dx as int == batch_totals(events@.subrange(0, i as int)).dx,
            acc_dy as int == batch_totals(events@.subrange(0, i as int)).dy,
            acc_wheel as int == batch_totals(events@.subrange(0, i as int)).wheel,
            kb_changed == batch_totals(events@.subrange(0, i as int)).keyboard,
            ptr_changed == batch_totals(events@.subrange(0, i as int)).pointer,
            -(i as int) * 0x8000_0000 <= acc_dx <= (i as int) * 0x8000_0000,
            -(i as int) * 0x8000_0000 <= acc_dy <= (i as int) * 0x8000_0000,
            -(i as int) * 0x8000_0000 <= acc_wheel <= (i as int) * 0x8000_0000,
        decreases events@.len() - i,
    {
        let ghost before = events@.subrange(0, i as int);
        proof {
            assert(events@.subrange(0, i + 1).drop_last() =~= before);
        }
        match events[i] {
            InputEvent::Key { key, state: key_state } => {
                state.handle_key(key, key_state);
                kb_changed = true;
            },
            InputEvent::Modifiers => {},
            InputEvent::Motion { dx, dy } => {
                acc_dx = acc_dx + dx as i128;
                acc_dy = acc_dy + dy as i128;
                ptr_changed = true;
            },
            InputEvent::Button { button, state: button_state } => {
                state.handle_button(button, button_state);
                ptr_changed = true;
            },
            InputEvent::Axis { axis, value } => {
                if axis == 0 {
                    acc_wheel = acc_wheel + value as i128;
                    ptr_changed = true;
                }
            },
            InputEvent::AxisDiscrete120 { axis, value } => {
                if axis == 0 {
                    let notches: i32 = if value >= 0 {
                        value / WHEEL_UNITS_PER_NOTCH
                    } else {
                        -((-(value as i64)) / (WHEEL_UNITS_PER_NOTCH as i64)) as i32
                    };
                    acc_wheel = acc_wheel - notches as i128;
                    ptr_changed = true;
                }
            },
        }
        i = i + 1;
    }
    proof {
        assert(events@.subrange(0, events@.len() as int) =~= events@);
    }
    let keyboard = if kb_changed {
        Some(state.keyboard_state())
    } else {
        None
    };
    let pointer = if ptr_changed {
        let dx = clamp_to_i8(div_toward_zero_exec(acc_dx, MOTION_UNITS_PER_PIXEL as i128));
        let dy = clamp_to_i8(div_toward_zero_exec(acc_dy, MOTION_UNITS_PER_PIXEL as i128));
        let wheel = clamp_to_i8(acc_wheel);
        Some(state.pointer_state(dx, dy, wheel))
    } else {
        None
    };
    BatchReports { keyboard, pointer }
}

/// Whether usage `u` is held after `evs`, starting from the held keys `init`:
/// the last key event whose (non-modifier) code maps to `u` decides, and
/// without such an event `u` stays as it was.
pub open spec fn usage_down(init: Seq<u8>, evs: Seq<InputEvent>, u: u8) -> bool
    decreases evs.len(),
{
    if evs.len() == 0 {
        init.contains(u)
    } else {
        match evs.last() {
            InputEvent::Key { key, state } => if modifier_bit(key) is None && hid_usage(key) == u {
                state != 0
            } else {
                usage_down(init, evs.drop_last(), u)
            },
            _ => usage_down(init, evs.drop_last(), u),
        }
    }
}

/// Whatever the interleaving of key presses and releases (and of other
/// events), the held keys never repeat, and a usage is held exactly when the
/// last event for its key was a press.
pub proof fn lemma_held_keys_track_presses(m: HidModel, evs: Seq<InputEvent>)
    requires
        m.wf(),
    ensures
        apply_events(m, evs).wf(),
        apply_events(m, evs).keys.no_duplicates(),
        forall|u: u8|
            u != 0 ==> (#[trigger] apply_events(m, evs).keys.contains(u) <==> usage_down(
                m.keys,
                evs,
                u,
            )),
    decreases evs.len(),
{
    if evs.len() > 0 {
        let prev = apply_events(m, evs.drop_last());
        lemma_held_keys_track_presses(m, evs.drop_last());
        match evs.last() {
            InputEvent::Key { key, state } => {
                lemma_key_step(prev, key, state);
            },
            _ => {},
        }
    }
}

/// A batch made only of motion events, however many, yields a pointer
/// report and no keyboard report, with no wheel movement and the motion
/// summed over the whole batch.
pub proof fn lemma_motion_batch_coalesces(evs: Seq<InputEvent>)
    requires
        evs.len() > 0,
        forall|i: int| 0 <= i < evs.len() ==> #[trigger] evs[i] is Motion,
    ensures
        batch_totals(evs).pointer,
        !batch_totals(evs).keyboard,
        batch_totals(evs).wheel == 0,
        batch_totals(evs).dx == batch_totals(evs.drop_last()).dx + evs.last()->Motion_dx,
        batch_totals(evs).dy == batch_totals(evs.drop_last()).dy + evs.last()->Motion_dy,
    decreases evs.len(),
{
    assert(evs[evs.len() - 1] is Motion);
    if evs.len() > 1 {
        let init = evs.drop_last();
        assert forall|i: int| 0 <= i < init.len() implies #[trigger] init[i] is Motion by {
            assert(evs[i] is Motion);
        }
        lemma_motion_batch_coalesces(init);
    } else {
        assert(batch_totals(evs.drop_last()) == BatchTotals {
            dx: 0,
            dy: 0,
            wheel: 0,
            keyboard: false,
            pointer: false,
        });
    }
}

/// Integer division rounding toward zero, as Rust's `/` does.
fn div_toward_zero_exec(a: i128, d: i128) -> (r: i128)
    requires
        d > 0,
        a > i128::MIN,
    ensures
        r as int == div_toward_zero(a as int, d as int),
{
    if a >= 0 {
        a / d
    } else {
        -((-a) / d)
    }
}

} // verus!

//! The HID-over-GATT service that the BLE transport publishes: its
//! characteristics, what each one answers to a read, and the per-subscriber
//! notification slots.
use vstd::prelude::*;

use crate::report::{REPORT_ID_KEYBOARD, REPORT_ID_MOUSE};

verus! {

/// 16-bit UUID of the HID service.
pub const HID_SERVICE: u16 = 0x1812;

/// 16-bit UUID of the Report Reference descriptor.
pub const REPORT_REFERENCE_DESC: u16 = 0x2908;

/// Report type "input" in a Report Reference descriptor.
pub const REPORT_TYPE_INPUT: u8 = 0x01;

/// Protocol mode value "report".
pub const PROTOCOL_MODE_REPORT: u8 = 0x01;

/// GAP appearance value of a keyboard.
pub const APPEARANCE_KEYBOARD: u16 = 0x03C1;

/// The Bluetooth base UUID, into which a 16-bit UUID is placed at bits 96..112.
pub const BLUETOOTH_BASE_UUID: u128 = 0x0000_0000_0000_1000_8000_0080_5f9b_34fb;

/// The report map: a keyboard with report ID 1 (modifier byte, reserved byte,
/// six keys) and a mouse with report ID 2 (five buttons, x, y, wheel).
pub open spec fn report_map_bytes() -> Seq<u8> {
    seq![
        0x05u8, 0x01u8, 0x09u8, 0x06u8, 0xA1u8, 0x01u8, 0x85u8, 0x01u8, 0x05u8, 0x07u8, 0x19u8,
        0xE0u8, 0x29u8, 0xE7u8, 0x15u8, 0x00u8, 0x25u8, 0x01u8, 0x75u8, 0x01u8, 0x95u8, 0x08u8,
        0x81u8, 0x02u8, 0x95u8, 0x01u8, 0x75u8, 0x08u8, 0x81u8, 0x01u8, 0x95u8, 0x06u8, 0x75u8,
        0x08u8, 0x15u8, 0x00u8, 0x25u8, 0xFFu8, 0x05u8, 0x07u8, 0x19u8, 0x00u8, 0x29u8, 0xFFu8,
        0x81u8, 0x00u8, 0xC0u8, 0x05u8, 0x01u8, 0x09u8, 0x02u8, 0xA1u8, 0x01u8, 0x85u8, 0x02u8,
        0x09u8, 0x01u8, 0xA1u8, 0x00u8, 0x05u8, 0x09u8, 0x19u8, 0x01u8, 0x29u8, 0x05u8, 0x15u8,
        0x00u8, 0x25u8, 0x01u8, 0x95u8, 0x05u8, 0x75u8, 0x01u8, 0x81u8, 0x02u8, 0x95u8, 0x01u8,
        0x75u8, 0x03u8, 0x81u8, 0x01u8, 0x05u8, 0x01u8, 0x09u8, 0x30u8, 0x09u8, 0x31u8, 0x09u8,
        0x38u8, 0x15u8, 0x81u8, 0x25u8, 0x7Fu8, 0x75u8, 0x08u8, 0x95u8, 0x03u8, 0x81u8, 0x06u8,
        0xC0u8, 0xC0u8
    ]
}

/// The HID Information value: HID 1.11, no country code, normally connectable.
pub open spec fn hid_information_bytes() -> Seq<u8> {
    seq![0x11u8, 0x01u8, 0x00u8, 0x02u8]
}

/// The 128-bit form of a 16-bit Bluetooth UUID.
pub fn ble_uuid(short: u16) -> (r: u128)
    ensures
        r == BLUETOOTH_BASE_UUID + (short as int) * 0x1_0000_0000_0000_0000_0000_0000,
{
    BLUETOOTH_BASE_UUID + (short as u128) * 0x1_0000_0000_0000_0000_0000_0000
}

/// The report map bytes.
pub fn report_map() -> (r: Vec<u8>)
    ensures
        r@ == report_map_bytes(),
{
    let r = vec![
        0x05u8, 0x01u8, 0x09u8, 0x06u8, 0xA1u8, 0x01u8, 0x85u8, 0x01u8, 0x05u8, 0x07u8, 0x19u8,
        0xE0u8, 0x29u8, 0xE7u8, 0x15u8, 0x00u8, 0x25u8, 0x01u8, 0x75u8, 0x01u8, 0x95u8, 0x08u8,
        0x81u8, 0x02u8, 0x95u8, 0x01u8, 0x75u8, 0x08u8, 0x81u8, 0x01u8, 0x95u8, 0x06u8, 0x75u8,
        0x08u8, 0x15u8, 0x00u8, 0x25u8, 0xFFu8, 0x05u8, 0x07u8, 0x19u8, 0x00u8, 0x29u8, 0xFFu8,
        0x81u8, 0x00u8, 0xC0u8, 0x05u8, 0x01u8, 0x09u8, 0x02u8, 0xA1u8, 0x01u8, 0x85u8, 0x02u8,
        0x09u8, 0x01u8, 0xA1u8, 0x00u8, 0x05u8, 0x09u8, 0x19u8, 0x01u8, 0x29u8, 0x05u8, 0x15u8,
        0x00u8, 0x25u8, 0x01u8, 0x95u8, 0x05u8, 0x75u8, 0x01u8, 0x81u8, 0x02u8, 0x95u8, 0x01u8,
        0x75u8, 0x03u8, 0x81u8, 0x01u8, 0x05u8, 0x01u8, 0x09u8, 0x30u8, 0x09u8, 0x31u8, 0x09u8,
        0x38u8, 0x15u8, 0x81u8, 0x25u8, 0x7Fu8, 0x75u8, 0x08u8, 0x95u8, 0x03u8, 0x81u8, 0x06u8,
        0xC0u8, 0xC0u8
    ];
    assert(r@ =~= report_map_bytes());
    r
}

/// The value of a Report Reference descriptor: report ID, then report type.
pub fn report_reference_descriptor(report_id: u8, report_type: u8) -> (r: Vec<u8>)
    ensures
        r@ == seq![report_id, report_type],
{
    vec![report_id, report_type]
}

/// The characteristics of the HID service.
#[derive(Clone, Copy, Debug, PartialEq, Eq, Structural)]
pub enum Characteristic {
    ProtocolMode,
    HidInformation,
    ReportMap,
    ControlPoint,
    BootKeyboardInput,
    BootMouseInput,
    /// A Report characteristic bound to a report ID by its descriptor.
    Report(u8),
}

/// The characteristics in the order the service lists them.
pub open spec fn service_characteristics() -> Seq<Characteristic> {
    seq![
        Characteristic::ProtocolMode,
        Characteristic::BootKeyboardInput,
        Characteristic::BootMouseInput,
        Characteristic::HidInformation,
        Characteristic::ReportMap,
        Characteristic::ControlPoint,
        Characteristic::Report(REPORT_ID_KEYBOARD),
        Characteristic::Report(REPORT_ID_MOUSE),
    ]
}

/// The characteristics of the service, in order.
pub fn characteristics() -> (r: Vec<Characteristic>)
    ensures
        r@ == service_characteristics(),
{
    let r = vec![
        Characteristic::ProtocolMode,
        Characteristic::BootKeyboardInput,
        Characteristic::BootMouseInput,
        Characteristic::HidInformation,
        Characteristic::ReportMap,
        Characteristic::ControlPoint,
        Characteristic::Report(REPORT_ID_KEYBOARD),
        Characteristic::Report(REPORT_ID_MOUSE),
    ];
    assert(r@ =~= service_characteristics());
    r
}

/// What a read of characteristic `c` answers, given the last keyboard and
/// mouse report values; `None` for a characteristic that cannot be read.
pub open spec fn read_answer(c: Characteristic, keyboard: Seq<u8>, mouse: Seq<u8>) -> Option<Seq<u8>> {
    match c {
        Characteristic::ProtocolMode => Some(seq![PROTOCOL_MODE_REPORT]),
        Characteristic::HidInformation => Some(hid_information_bytes()),
        Characteristic::ReportMap => Some(report_map_bytes()),
        Characteristic::ControlPoint => None,
        Characteristic::BootKeyboardInput => Some(keyboard),
        Characteristic::BootMouseInput => Some(mouse.subrange(0, 3)),
        Characteristic::Report(id) => if id == REPORT_ID_KEYBOARD {
            Some(keyboard)
        } else if id == REPORT_ID_MOUSE {
            Some(mouse)
        } else {
            None
        },
    }
}

impl Characteristic {
    /// The characteristic's 16-bit UUID.
    pub fn uuid16(&self) -> (r: u16)
        ensures
            r == match *self {
                Characteristic::ProtocolMode => 0x2A4Eu16,
                Characteristic::HidInformation => 0x2A4Au16,
                Characteristic::ReportMap => 0x2A4Bu16,
                Characteristic::ControlPoint => 0x2A4Cu16,
                Characteristic::BootKeyboardInput => 0x2A22u16,
                Characteristic::BootMouseInput => 0x2A33u16,
                Characteristic::Report(_) => 0x2A4Du16,
            },
    {
        match *self {
            Characteristic::ProtocolMode => 0x2A4E,
            Characteristic::HidInformation => 0x2A4A,
            Characteristic::ReportMap => 0x2A4B,
            Characteristic::ControlPoint => 0x2A4C,
            Characteristic::BootKeyboardInput => 0x2A22,
            Characteristic::BootMouseInput => 0x2A33,
            Characteristic::Report(_) => 0x2A4D,
        }
    }

    /// Whether a peer may write the characteristic (the value is only logged).
    pub fn writable(&self) -> (r: bool)
        ensures
            r == (*self is ProtocolMode || *self is ControlPoint),
    {
        match *self {
            Characteristic::ProtocolMode | Characteristic::ControlPoint => true,
            _ => false,
        }
    }

    /// Whether a peer may subscribe to notifications of the characteristic.
    pub fn notifies(&self) -> (r: bool)
        ensures
            r == (*self is BootKeyboardInput || *self is BootMouseInput || *self is Report),
    {
        match *self {
            Characteristic::BootKeyboardInput
            | Characteristic::BootMouseInput
            | Characteristic::Report(_) => true,
            _ => false,
        }
    }

    /// The answer to a read, given the last keyboard and mouse report values.
    pub fn read_value(&self, keyboard: &Vec<u8>, mouse: &Vec<u8>) -> (r: Option<Vec<u8>>)
        requires
            mouse@.len() >= 3,
        ensures
            r is Some <==> read_answer(*self, keyboard@, mouse@) is Some,
            r matches Some(v) ==> read_answer(*self, keyboard@, mouse@) == Some(v@),
    {
        match *self {
            Characteristic::ProtocolMode => Some(vec![PROTOCOL_MODE_REPORT]),
            Characteristic::HidInformation => Some(vec![0x11u8, 0x01u8, 0x00u8, 0x02u8]),
            Characteristic::ReportMap => Some(report_map()),
            Characteristic::ControlPoint => None,
            Characteristic::BootKeyboardInput => Some(keyboard.clone()),
            Characteristic::BootMouseInput => {
                let v = vec![mouse[0], mouse[1], mouse[2]];
                assert(v@ =~= mouse@.subrange(0, 3));
                Some(v)
            },
            Characteristic::Report(id) => if id == REPORT_ID_KEYBOARD {
                Some(keyboard.clone())
            } else if id == REPORT_ID_MOUSE {
                Some(mouse.clone())
            } else {
                None
            },
        }
    }
}

/// The live notification endpoint of one characteristic, if a peer has
/// subscribed.
pub struct NotifierSlot<H> {
    handle: Option<H>,
}

impl<H> NotifierSlot<H> {
    /// A slot with no subscriber.
    pub fn new() -> (r: NotifierSlot<H>)
        ensures
            r.live() is None,
    {
        NotifierSlot { handle: None }
    }

    /// The subscriber's endpoint, if any.
    pub closed spec fn live(&self) -> Option<H> {
        self.handle
    }

    /// A peer subscribed: its endpoint replaces any earlier one.
    pub fn subscribe(&mut self, h: H)
        ensures
            final(self).live() == Some(h),
    {
        self.handle = Some(h);
    }

    /// The endpoint to notify, if one is live.
    pub fn endpoint(&mut self) -> (r: Option<&mut H>)
        ensures
            r is Some <==> old(self).live() is Some,
            r matches Some(h) ==> old(self).live() == Some(*h) && final(self).live() == Some(*final(h)),
            r is None ==> final(self).live() == old(self).live(),
    {
        self.handle.as_mut()
    }

    /// The outcome of a notification: a failure drops the endpoint, so that
    /// later reports skip it until the peer subscribes again.
    pub fn notify_finished(&mut self, delivered: bool)
        ensures
            delivered ==> final(self).live() == old(self).live(),
            !delivered ==> final(self).live() is None,
    {
        if !delivered {
            self.handle = None;
        }
    }
}

} // verus!

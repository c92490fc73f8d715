//! Decoding of the joystick device's fixed-size event records.
use vstd::prelude::*;
use crate::motor::le_i16;

verus! {

/// Size in bytes of one event record.
pub const RECORD_LEN: usize = 8;

/// Kind bit of a synthetic event the driver emits when the device opens.
pub const KIND_INIT: u8 = 0x80;

/// Kind bit of a button event.
pub const KIND_BUTTON: u8 = 0x01;

/// Kind bit of an axis event.
pub const KIND_AXIS: u8 = 0x02;

/// One record as the device writes it.
#[derive(Clone, Copy, Debug, PartialEq, Eq, Structural)]
pub struct RawEvent {
    pub timestamp: u32,
    pub value: i16,
    pub kind: u8,
    pub number: u8,
}

impl RawEvent {
    pub open spec fn is_init(self) -> bool {
        self.kind & 0x80u8 != 0
    }

    pub open spec fn is_button(self) -> bool {
        self.kind & 0x01u8 != 0
    }

    pub open spec fn is_axis(self) -> bool {
        self.kind & 0x02u8 != 0
    }
}

/// The value of four little-endian bytes as an unsigned integer.
pub open spec fn le_u32(b0: u8, b1: u8, b2: u8, b3: u8) -> int {
    b0 as int + 256 * (b1 as int) + 65536 * (b2 as int) + 16777216 * (b3 as int)
}

/// What a record decodes to: an event for exactly `RECORD_LEN` bytes, and
/// nothing for a short read.
pub open spec fn decode_spec(b: Seq<u8>) -> Option<RawEvent> {
    if b.len() == 8 {
        Some(
            RawEvent {
                timestamp: le_u32(b[0], b[1], b[2], b[3]) as u32,
                value: le_i16(b[4], b[5]) as i16,
                kind: b[6],
                number: b[7],
            },
        )
    } else {
        None
    }
}

/// Decodes one record: `timestamp: u32 | value: i16 | kind: u8 | number: u8`,
/// little-endian. Anything but exactly `RECORD_LEN` bytes yields no event.
pub fn decode_event(b: &[u8]) -> (r: Option<RawEvent>)
    ensures
        r == decode_spec(b@),
        r is Some <==> b@.len() == 8,
{
    if b.len() != RECORD_LEN {
        return None;
    }
    let timestamp: u32 = b[0] as u32 + 256 * (b[1] as u32) + 65536 * (b[2] as u32)
        + 16777216 * (b[3] as u32);
    let u: u32 = b[4] as u32 + 256 * (b[5] as u32);
    let value: i16 = if u >= 32768 {
        (u as i32 - 65536) as i16
    } else {
        u as i16
    };
    Some(RawEvent { timestamp, value, kind: b[6], number: b[7] })
}

} // verus!

//! Building the motor command's CAN frame with socketcan.
use vstd::prelude::*;
use socketcan::{CanFrame, StandardId};
use crate::motor::MotorCommand;

verus! {

/// Standard identifier of the motor command frame.
pub const MOTOR_CAN_ID: u16 = 44;

/// Standard identifier reserved for the servo channel; never sent here.
pub const SERVO_CAN_ID: u16 = 45;

/// Largest standard (11-bit) identifier.
pub const MAX_STANDARD_ID: u16 = 0x7FF;

#[verifier::external_type_specification]
#[verifier::external_body]
pub struct ExStandardId(StandardId);

#[verifier::external_type_specification]
#[verifier::external_body]
pub struct ExCanFrame(CanFrame);

/// The raw 11-bit value a standard identifier holds (`StandardId::as_raw`).
pub uninterp spec fn id_raw(id: StandardId) -> u16;

/// The data bytes of a frame (`CanFrame::data`).
pub uninterp spec fn frame_data(f: CanFrame) -> Seq<u8>;

/// The raw value of a frame's standard identifier.
pub uninterp spec fn frame_id(f: CanFrame) -> u16;

/// embedded_can's `StandardId::new` (re-exported by socketcan): an
/// identifier exactly when `raw` fits in 11 bits, and that identifier
/// holds `raw`.
pub assume_specification[ StandardId::new ](raw: u16) -> (r: Option<StandardId>)
    ensures
        r is Some <==> raw <= 0x7FF,
        r matches Some(id) ==> id_raw(id) == raw,
;

/// Relies on socketcan's `CanFrame::new` (its `embedded_can::Frame` impl):
/// a data frame exactly when the payload holds at most eight bytes; the
/// frame carries `id` and exactly the payload's bytes.
#[verifier::external_body]
fn data_frame(id: StandardId, data: &[u8]) -> (r: Option<CanFrame>)
    ensures
        r is Some <==> data@.len() <= 8,
        r matches Some(f) ==> frame_data(f) == data@ && frame_id(f) == id_raw(id),
{
    <CanFrame as socketcan::EmbeddedFrame>::new(id, data)
}

#[derive(Clone, Copy, Debug, PartialEq, Eq, Structural)]
pub enum FrameError {
    /// The identifier does not fit in 11 bits.
    InvalidId(u16),
}

/// The standard identifier `raw`, or `InvalidId` when it exceeds
/// `MAX_STANDARD_ID`.
pub fn standard_id(raw: u16) -> (r: Result<StandardId, FrameError>)
    ensures
        r is Ok <==> raw <= MAX_STANDARD_ID,
        r matches Ok(id) ==> id_raw(id) == raw,
        r matches Err(e) ==> e == FrameError::InvalidId(raw),
{
    match StandardId::new(raw) {
        Some(id) => Ok(id),
        None => Err(FrameError::InvalidId(raw)),
    }
}

/// The data frame with identifier `id` and `cmd`'s 4-byte payload.
pub fn motor_frame(id: StandardId, cmd: &MotorCommand) -> (r: CanFrame)
    ensures
        frame_data(r) == cmd.payload_spec(),
        frame_id(r) == id_raw(id),
{
    let payload = cmd.payload();
    let frame = data_frame(id, &payload);
    frame.unwrap()
}

} // verus!

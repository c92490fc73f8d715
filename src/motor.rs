//! Differential-drive mixing of two stick readings into a pair of motor
//! speeds, and their little-endian CAN payload.
use vstd::prelude::*;

verus! {

/// Largest magnitude a motor speed may take.
pub const MAX_SPEED: i16 = 4095;

/// A stick reading of this many units stands for full deflection (1.0).
pub const AXIS_SCALE: i32 = 32767;

/// Integer division rounding toward zero, as a cast from a real does.
pub open spec fn trunc_div(a: int, d: int) -> int {
    if a >= 0 { a / d } else { -((-a) / d) }
}

pub open spec fn clamp(x: int, lo: int, hi: int) -> int {
    if x < lo { lo } else if x > hi { hi } else { x }
}

/// One motor's speed for the difference `2 * throttle + sign * steering`
/// (stick readings in units of `AXIS_SCALE`): the throttle at full authority
/// plus or minus the steering at half authority, scaled to `MAX_SPEED`,
/// rounded toward zero and clamped to `[-MAX_SPEED, MAX_SPEED]`.
pub open spec fn mixed_speed(twice_throttle_plus_steer: int) -> int {
    clamp(trunc_div(twice_throttle_plus_steer * 4095, 65534int), -4095, 4095)
}

pub open spec fn left_speed_of(steering: int, throttle: int) -> int {
    mixed_speed(2 * throttle - steering)
}

pub open spec fn right_speed_of(steering: int, throttle: int) -> int {
    mixed_speed(2 * throttle + steering)
}

/// The value of a little-endian two's-complement 16-bit integer.
pub open spec fn le_i16(lo: u8, hi: u8) -> int {
    let u = lo as int + 256 * (hi as int);
    if u >= 32768 { u - 65536 } else { u }
}

/// The two little-endian bytes of `v`.
pub open spec fn le_bytes_i16(v: int) -> Seq<u8> {
    let u = if v < 0 { v + 65536 } else { v };
    seq![(u % 256) as u8, (u / 256) as u8]
}

/// Speeds for the left and right motor.
#[derive(Clone, Copy, Debug, PartialEq, Eq, Structural)]
pub struct MotorCommand {
    pub left_speed: i16,
    pub right_speed: i16,
}

impl MotorCommand {
    pub open spec fn in_range(self) -> bool {
        -4095 <= self.left_speed <= 4095 && -4095 <= self.right_speed <= 4095
    }

    /// The four payload bytes: left speed then right speed, each little-endian.
    pub open spec fn payload_spec(self) -> Seq<u8> {
        le_bytes_i16(self.left_speed as int) + le_bytes_i16(self.right_speed as int)
    }

    /// Mixes a steering and a throttle reading (units of `AXIS_SCALE`, so
    /// `AXIS_SCALE` is full deflection) into left and right motor speeds.
    pub fn from_sticks(steering: i32, throttle: i32) -> (r: MotorCommand)
        ensures
            r.left_speed == left_speed_of(steering as int, throttle as int),
            r.right_speed == right_speed_of(steering as int, throttle as int),
            r.in_range(),
    {
        let twice: i64 = 2 * (throttle as i64);
        let left = mix(twice - steering as i64);
        let right = mix(twice + steering as i64);
        MotorCommand { left_speed: left, right_speed: right }
    }

    /// The 4-byte CAN payload of this command.
    pub fn payload(&self) -> (r: [u8; 4])
        ensures
            r@ == self.payload_spec(),
    {
        let l = le_bytes(self.left_speed);
        let h = le_bytes(self.right_speed);
        let r = [l.0, l.1, h.0, h.1];
        assert(r@ =~= self.payload_spec());
        r
    }
}

fn mix(n: i64) -> (r: i16)
    requires
        -3 * 0x8000_0000 <= n <= 3 * 0x8000_0000,
    ensures
        r == mixed_speed(n as int),
{
    let p: i64 = n * 4095;
    let q: i64 = if p >= 0 {
        p / 65534
    } else {
        -((-p) / 65534)
    };
    if q < -4095 {
        -4095
    } else if q > 4095 {
        4095
    } else {
        q as i16
    }
}

fn le_bytes(v: i16) -> (r: (u8, u8))
    ensures
        seq![r.0, r.1] == le_bytes_i16(v as int),
{
    let u: u32 = if v < 0 {
        (v as i32 + 65536) as u32
    } else {
        v as u32
    };
    ((u % 256) as u8, (u / 256) as u8)
}

/// Reading the payload back as two little-endian signed 16-bit integers
/// gives the left and the right speed exactly.
pub proof fn lemma_payload_round_trip(cmd: MotorCommand)
    ensures
        cmd.payload_spec().len() == 4,
        le_i16(cmd.payload_spec()[0], cmd.payload_spec()[1]) == cmd.left_speed,
        le_i16(cmd.payload_spec()[2], cmd.payload_spec()[3]) == cmd.right_speed,
{
    lemma_le_i16_round_trip(cmd.left_speed as int);
    lemma_le_i16_round_trip(cmd.right_speed as int);
}

proof fn lemma_le_i16_round_trip(v: int)
    requires
        -32768 <= v <= 32767,
    ensures
        le_bytes_i16(v).len() == 2,
        le_i16(le_bytes_i16(v)[0], le_bytes_i16(v)[1]) == v,
{
    let u = if v < 0 { v + 65536 } else { v };
    assert(0 <= u < 65536);
    assert((u % 256) as u8 as int == u % 256);
    assert((u / 256) as u8 as int == u / 256);
    assert(u % 256 + 256 * (u / 256) == u);
}

/// Whatever the two readings, both speeds lie in `[-MAX_SPEED, MAX_SPEED]`.
pub proof fn lemma_speeds_bounded(steering: int, throttle: int)
    ensures
        -4095 <= left_speed_of(steering, throttle) <= 4095,
        -4095 <= right_speed_of(steering, throttle) <= 4095,
{
}

} // verus!

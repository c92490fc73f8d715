//! Gamepad-driven teleoperation core: decoding joystick event records,
//! folding them into a semantic snapshot, the drive-mode state machine and
//! the differential-drive motor command encoder.
pub mod can;
pub mod control;
pub mod event;
pub mod gamepad;
pub mod joystick;
pub mod motor;

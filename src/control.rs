//! The drive-mode state machine: one decision per poll of the gamepad.
use vstd::prelude::*;
use crate::gamepad::{ButtonReading, ShanWanGamepadInput};
use crate::motor::MotorCommand;

verus! {

#[derive(Clone, Copy, Debug, PartialEq, Eq, Structural)]
pub enum ControlMode {
    Idle,
    Manual,
}

/// What the loop does after a poll.
#[derive(Clone, Copy, Debug, PartialEq, Eq, Structural)]
pub enum Action {
    /// Poll again; nothing is sent.
    Continue,
    /// Stop the program.
    Terminate,
    /// Transmit this command, then poll again.
    Send(MotorCommand),
}

/// The command for a snapshot: steering from the left stick's `x`,
/// throttle from the right stick's `y`.
pub open spec fn command_of(s: ShanWanGamepadInput) -> MotorCommand {
    MotorCommand {
        left_speed: crate::motor::left_speed_of(
            s.analog_stick_left.x as int,
            s.analog_stick_right.y as int,
        ) as i16,
        right_speed: crate::motor::right_speed_of(
            s.analog_stick_left.x as int,
            s.analog_stick_right.y as int,
        ) as i16,
    }
}

/// Next mode and action after a poll that left snapshot `s`. Level
/// triggered: only the snapshot counts, not what the buttons were before.
/// In `Idle`, `select` pressed terminates, checked before `start`, which
/// enters `Manual`. In `Manual`, `b` pressed returns to `Idle` without
/// sending; otherwise the snapshot's command is sent.
pub open spec fn step_spec(mode: ControlMode, s: ShanWanGamepadInput) -> (ControlMode, Action) {
    match mode {
        ControlMode::Idle => {
            if s.button_select == ButtonReading::Pressed {
                (ControlMode::Idle, Action::Terminate)
            } else if s.button_start == ButtonReading::Pressed {
                (ControlMode::Manual, Action::Continue)
            } else {
                (ControlMode::Idle, Action::Continue)
            }
        },
        ControlMode::Manual => {
            if s.button_b == ButtonReading::Pressed {
                (ControlMode::Idle, Action::Continue)
            } else {
                (ControlMode::Manual, Action::Send(command_of(s)))
            }
        },
    }
}

/// Decides the next mode and the action after a poll.
pub fn step(mode: ControlMode, input: &ShanWanGamepadInput) -> (r: (ControlMode, Action))
    ensures
        r == step_spec(mode, *input),
{
    match mode {
        ControlMode::Idle => {
            if input.button_select.is_pressed() {
                (ControlMode::Idle, Action::Terminate)
            } else if input.button_start.is_pressed() {
                (ControlMode::Manual, Action::Continue)
            } else {
                (ControlMode::Idle, Action::Continue)
            }
        },
        ControlMode::Manual => {
            if input.button_b.is_pressed() {
                (ControlMode::Idle, Action::Continue)
            } else {
                let cmd = MotorCommand::from_sticks(
                    input.analog_stick_left.x,
                    input.analog_stick_right.y,
                );
                (ControlMode::Manual, Action::Send(cmd))
            }
        },
    }
}

/// In `Idle`, a pressed `select` terminates whatever `start` reads.
pub proof fn lemma_select_before_start(s: ShanWanGamepadInput)
    requires
        s.button_select == ButtonReading::Pressed,
    ensures
        step_spec(ControlMode::Idle, s) == (ControlMode::Idle, Action::Terminate),
{
}

/// In `Manual`, a pressed `b` returns to `Idle` and sends nothing.
pub proof fn lemma_b_leaves_manual_silently(s: ShanWanGamepadInput)
    requires
        s.button_b == ButtonReading::Pressed,
    ensures
        step_spec(ControlMode::Manual, s) == (ControlMode::Idle, Action::Continue),
{
}

/// A frame is only ever sent from `Manual`, and what is sent is always
/// within `[-MAX_SPEED, MAX_SPEED]`.
pub proof fn lemma_sent_commands(mode: ControlMode, s: ShanWanGamepadInput)
    ensures
        step_spec(mode, s).1 matches Action::Send(cmd) ==> mode == ControlMode::Manual
            && cmd.in_range(),
{
    crate::motor::lemma_speeds_bounded(s.analog_stick_left.x as int, s.analog_stick_right.y as int);
}

} // verus!

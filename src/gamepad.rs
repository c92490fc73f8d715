//! The ShanWan gamepad: folds joystick events into a semantic snapshot of
//! the two sticks and the named buttons.
use vstd::prelude::*;
use crate::joystick::{shanwan_axis_names, shanwan_button_names, surfaced, JsEvent, Joystick};

verus! {

/// A stick reading in fixed point: each component in units of
/// `AXIS_SCALE`, so 32767 stands for 1.0.
#[derive(Clone, Copy, Debug, PartialEq, Eq, Structural)]
pub struct Vector3f {
    pub x: i32,
    pub y: i32,
    pub z: i32,
}

impl Vector3f {
    pub fn zero() -> (r: Vector3f)
        ensures
            r == (Vector3f { x: 0, y: 0, z: 0 }),
    {
        Vector3f { x: 0, y: 0, z: 0 }
    }
}

/// A button as last observed: never observed, pressed or released.
#[derive(Clone, Copy, Debug, PartialEq, Eq, Structural)]
pub enum ButtonReading {
    Unset,
    Pressed,
    Released,
}

pub open spec fn reading_of(pressed: bool) -> ButtonReading {
    if pressed { ButtonReading::Pressed } else { ButtonReading::Released }
}

impl ButtonReading {
    pub fn is_pressed(&self) -> (r: bool)
        ensures
            r == (*self == ButtonReading::Pressed),
    {
        match self {
            ButtonReading::Pressed => true,
            _ => false,
        }
    }
}

/// The semantic view of the gamepad: both sticks and the named buttons.
#[derive(Clone, Copy, Debug, PartialEq, Eq, Structural)]
pub struct ShanWanGamepadInput {
    pub analog_stick_left: Vector3f,
    pub analog_stick_right: Vector3f,
    pub button_l1: ButtonReading,
    pub button_l2: ButtonReading,
    pub button_r1: ButtonReading,
    pub button_r2: ButtonReading,
    pub button_x: ButtonReading,
    pub button_a: ButtonReading,
    pub button_b: ButtonReading,
    pub button_y: ButtonReading,
    pub button_select: ButtonReading,
    pub button_start: ButtonReading,
    pub button_home: ButtonReading,
}

/// The snapshot before any event: sticks at rest, every button unset.
pub open spec fn initial_input() -> ShanWanGamepadInput {
    ShanWanGamepadInput {
        analog_stick_left: Vector3f { x: 0, y: 0, z: 0 },
        analog_stick_right: Vector3f { x: 0, y: 0, z: 0 },
        button_l1: ButtonReading::Unset,
        button_l2: ButtonReading::Unset,
        button_r1: ButtonReading::Unset,
        button_r2: ButtonReading::Unset,
        button_x: ButtonReading::Unset,
        button_a: ButtonReading::Unset,
        button_b: ButtonReading::Unset,
        button_y: ButtonReading::Unset,
        button_select: ButtonReading::Unset,
        button_start: ButtonReading::Unset,
        button_home: ButtonReading::Unset,
    }
}

/// The snapshot after event `e`: only the field that the event's index
/// maps to changes. Axes 0 and 2 set the left and right stick's `x`, axes 1
/// and 3 their `y` negated; buttons 13 and 14 set the left and right
/// stick's `z` to full scale when pressed and to 0 when released; other
/// indices leave the snapshot as it is.
pub open spec fn apply_spec(s: ShanWanGamepadInput, e: JsEvent) -> ShanWanGamepadInput {
    match e {
        JsEvent::Axis { number, value } => {
            let v = value as i32;
            if number == 0 {
                ShanWanGamepadInput { analog_stick_left: Vector3f { x: v, ..s.analog_stick_left }, ..s }
            } else if number == 1 {
                ShanWanGamepadInput { analog_stick_left: Vector3f { y: (-v) as i32, ..s.analog_stick_left }, ..s }
            } else if number == 2 {
                ShanWanGamepadInput { analog_stick_right: Vector3f { x: v, ..s.analog_stick_right }, ..s }
            } else if number == 3 {
                ShanWanGamepadInput { analog_stick_right: Vector3f { y: (-v) as i32, ..s.analog_stick_right }, ..s }
            } else {
                s
            }
        },
        JsEvent::Button { number, pressed } => {
            let b = reading_of(pressed);
            let z: i32 = if pressed { 32767 } else { 0 };
            if number == 0 {
                ShanWanGamepadInput { button_a: b, ..s }
            } else if number == 1 {
                ShanWanGamepadInput { button_b: b, ..s }
            } else if number == 3 {
                ShanWanGamepadInput { button_x: b, ..s }
            } else if number == 4 {
                ShanWanGamepadInput { button_y: b, ..s }
            } else if number == 6 {
                ShanWanGamepadInput { button_l1: b, ..s }
            } else if number == 7 {
                ShanWanGamepadInput { button_r1: b, ..s }
            } else if number == 8 {
                ShanWanGamepadInput { button_l2: b, ..s }
            } else if number == 9 {
                ShanWanGamepadInput { button_r2: b, ..s }
            } else if number == 10 {
                ShanWanGamepadInput { button_select: b, ..s }
            } else if number == 11 {
                ShanWanGamepadInput { button_start: b, ..s }
            } else if number == 12 {
                ShanWanGamepadInput { button_home: b, ..s }
            } else if number == 13 {
                ShanWanGamepadInput { analog_stick_left: Vector3f { z, ..s.analog_stick_left }, ..s }
            } else if number == 14 {
                ShanWanGamepadInput { analog_stick_right: Vector3f { z, ..s.analog_stick_right }, ..s }
            } else {
                s
            }
        },
    }
}

/// The snapshot after an optional event.
pub open spec fn apply_opt(s: ShanWanGamepadInput, e: Option<JsEvent>) -> ShanWanGamepadInput {
    match e {
        None => s,
        Some(ev) => apply_spec(s, ev),
    }
}

/// Stick component that axis `number` drives: left `x`, left `y`, right
/// `x`, right `y` for 0 to 3.
pub open spec fn stick_axis(s: ShanWanGamepadInput, number: int) -> i32 {
    if number == 0 {
        s.analog_stick_left.x
    } else if number == 1 {
        s.analog_stick_left.y
    } else if number == 2 {
        s.analog_stick_right.x
    } else {
        s.analog_stick_right.y
    }
}

/// The named buttons in index order: `a b x y l1 r1 l2 r2 select start home`.
pub open spec fn named_buttons(s: ShanWanGamepadInput) -> Seq<ButtonReading> {
    seq![
        s.button_a,
        s.button_b,
        s.button_x,
        s.button_y,
        s.button_l1,
        s.button_r1,
        s.button_l2,
        s.button_r2,
        s.button_select,
        s.button_start,
        s.button_home,
    ]
}

/// Position in `named_buttons` of the field that button `number` drives.
pub open spec fn named_slot(number: int) -> int {
    if number <= 1 {
        number
    } else if number <= 4 {
        number - 1
    } else {
        number - 2
    }
}

/// Whether button `number` drives a named button field.
pub open spec fn is_named_button(number: int) -> bool {
    0 <= number <= 12 && number != 2 && number != 5
}

/// An axis event on axes 0 to 3 sets the stick component its index maps to
/// to the raw reading, negated for the `y` axes 1 and 3, and changes nothing
/// else.
pub proof fn lemma_axis_event(s: ShanWanGamepadInput, number: usize, value: i16)
    requires
        number < 4,
    ensures
        ({
            let t = apply_spec(s, JsEvent::Axis { number, value });
            &&& stick_axis(t, number as int) == (if number % 2 == 1 {
                -value
            } else {
                value as int
            })
            &&& forall|k: int| 0 <= k < 4 && k != number ==> stick_axis(t, k) == stick_axis(s, k)
            &&& t.analog_stick_left.z == s.analog_stick_left.z
            &&& t.analog_stick_right.z == s.analog_stick_right.z
            &&& named_buttons(t) == named_buttons(s)
        }),
{
    let t = apply_spec(s, JsEvent::Axis { number, value });
    assert(named_buttons(t) =~= named_buttons(s));
}

/// A button event on a named button sets exactly that button's field to
/// `Pressed` or `Released` and changes nothing else.
#[verifier::rlimit(40)]
pub proof fn lemma_named_button_event(s: ShanWanGamepadInput, number: usize, pressed: bool)
    requires
        is_named_button(number as int),
    ensures
        ({
            let t = apply_spec(s, JsEvent::Button { number, pressed });
            &&& named_buttons(t) == named_buttons(s).update(
                named_slot(number as int),
                reading_of(pressed),
            )
            &&& t.analog_stick_left == s.analog_stick_left
            &&& t.analog_stick_right == s.analog_stick_right
        }),
{
    let t = apply_spec(s, JsEvent::Button { number, pressed });
    assert(named_buttons(t) =~= named_buttons(s).update(
        named_slot(number as int),
        reading_of(pressed),
    ));
}

/// Buttons 13 and 14 set the left and right stick's `z` to full scale when
/// pressed and to 0 when released, and change nothing else.
pub proof fn lemma_stick_z_button_event(s: ShanWanGamepadInput, number: usize, pressed: bool)
    requires
        number == 13 || number == 14,
    ensures
        ({
            let t = apply_spec(s, JsEvent::Button { number, pressed });
            let z: i32 = if pressed { 32767 } else { 0 };
            &&& number == 13 ==> t == ShanWanGamepadInput {
                analog_stick_left: Vector3f { z, ..s.analog_stick_left },
                ..s
            }
            &&& number == 14 ==> t == ShanWanGamepadInput {
                analog_stick_right: Vector3f { z, ..s.analog_stick_right },
                ..s
            }
        }),
{
}

/// A record that carries no event (a short read, or an init record) leaves
/// the snapshot as it was.
pub proof fn lemma_ignored_record_keeps_snapshot(s: ShanWanGamepadInput, b: Seq<u8>)
    requires
        b.len() < 8 || (b.len() == 8 && b[6] & 0x80u8 != 0),
    ensures
        apply_opt(s, surfaced(b, 4, 15)) == s,
{
    if b.len() < 8 {
        crate::joystick::lemma_short_record_ignored(b, 4, 15);
    } else {
        crate::joystick::lemma_init_record_ignored(b, 4, 15);
    }
}

impl ShanWanGamepadInput {
    /// A snapshot with the sticks at rest and every button unset.
    pub fn new() -> (r: ShanWanGamepadInput)
        ensures
            r == initial_input(),
    {
        ShanWanGamepadInput {
            analog_stick_left: Vector3f::zero(),
            analog_stick_right: Vector3f::zero(),
            button_l1: ButtonReading::Unset,
            button_l2: ButtonReading::Unset,
            button_r1: ButtonReading::Unset,
            button_r2: ButtonReading::Unset,
            button_x: ButtonReading::Unset,
            button_a: ButtonReading::Unset,
            button_b: ButtonReading::Unset,
            button_y: ButtonReading::Unset,
            button_select: ButtonReading::Unset,
            button_start: ButtonReading::Unset,
            button_home: ButtonReading::Unset,
        }
    }

    /// Writes event `e` into the one field its index maps to.
    pub fn apply(&mut self, e: JsEvent)
        ensures
            *final(self) == apply_spec(*old(self), e),
    {
        match e {
            JsEvent::Axis { number, value } => {
                let v = value as i32;
                if number == 0 {
                    self.analog_stick_left.x = v;
                } else if number == 1 {
                    self.analog_stick_left.y = -v;
                } else if number == 2 {
                    self.analog_stick_right.x = v;
                } else if number == 3 {
                    self.analog_stick_right.y = -v;
                }
            },
            JsEvent::Button { number, pressed } => {
                let b = if pressed {
                    ButtonReading::Pressed
                } else {
                    ButtonReading::Released
                };
                let z: i32 = if pressed {
                    32767
                } else {
                    0
                };
                if number == 0 {
                    self.button_a = b;
                } else if number == 1 {
                    self.button_b = b;
                } else if number == 3 {
                    self.button_x = b;
                } else if number == 4 {
                    self.button_y = b;
                } else if number == 6 {
                    self.button_l1 = b;
                } else if number == 7 {
                    self.button_r1 = b;
                } else if number == 8 {
                    self.button_l2 = b;
                } else if number == 9 {
                    self.button_r2 = b;
                } else if number == 10 {
                    self.button_select = b;
                } else if number == 11 {
                    self.button_start = b;
                } else if number == 12 {
                    self.button_home = b;
                } else if number == 13 {
                    self.analog_stick_left.z = z;
                } else if number == 14 {
                    self.analog_stick_right.z = z;
                }
            },
        }
    }
}

/// The ShanWan gamepad: a joystick with the ShanWan name tables and the
/// snapshot its events have built.
pub struct ShanWanGamepad {
    joystick: Joystick,
    gamepad_input: ShanWanGamepadInput,
}

impl ShanWanGamepad {
    pub closed spec fn wf(&self) -> bool {
        &&& self.joystick.wf()
        &&& self.joystick.axes().len() == 4
        &&& self.joystick.buttons().len() == 15
    }

    /// The current snapshot.
    pub closed spec fn input(&self) -> ShanWanGamepadInput {
        self.gamepad_input
    }

    /// The underlying joystick's tables.
    pub closed spec fn joystick_spec(&self) -> Joystick {
        self.joystick
    }

    /// A gamepad with the ShanWan tables, every raw value at rest and the
    /// snapshot at `initial_input()`.
    pub fn new() -> (r: ShanWanGamepad)
        ensures
            r.wf(),
            r.input() == initial_input(),
            r.joystick_spec().axis_names() == shanwan_axis_names(),
            r.joystick_spec().button_names() == shanwan_button_names(),
            r.joystick_spec().axes() == Seq::new(4, |i: int| 0i16),
            r.joystick_spec().buttons() == Seq::new(15, |i: int| false),
    {
        let mut js = Joystick::new();
        js.init();
        ShanWanGamepad { joystick: js, gamepad_input: ShanWanGamepadInput::new() }
    }

    /// The joystick underneath.
    pub fn joystick(&self) -> (r: &Joystick)
        ensures
            *r == self.joystick_spec(),
    {
        &self.joystick
    }

    /// Takes in one record read from the device (empty on a failed read),
    /// folds the live event it carries, if any, into the snapshot and returns
    /// the snapshot.
    pub fn read_data(&mut self, b: &[u8]) -> (r: ShanWanGamepadInput)
        requires
            old(self).wf(),
        ensures
            final(self).wf(),
            final(self).input() == apply_opt(old(self).input(), surfaced(b@, 4, 15)),
            r == final(self).input(),
            final(self).joystick_spec().axis_names() == old(self).joystick_spec().axis_names(),
            final(self).joystick_spec().button_names() == old(self).joystick_spec().button_names(),
            match surfaced(b@, 4, 15) {
                None => final(self).joystick_spec().axes() == old(self).joystick_spec().axes()
                    && final(self).joystick_spec().buttons() == old(self).joystick_spec().buttons(),
                Some(JsEvent::Button { number, pressed }) => final(self).joystick_spec().axes()
                    == old(self).joystick_spec().axes() && final(self).joystick_spec().buttons()
                    == old(self).joystick_spec().buttons().update(number as int, pressed),
                Some(JsEvent::Axis { number, value }) => final(self).joystick_spec().buttons()
                    == old(self).joystick_spec().buttons() && final(self).joystick_spec().axes()
                    == old(self).joystick_spec().axes().update(number as int, value),
            },
    {
        let e = self.joystick.poll(b);
        if let Some(ev) = e {
            self.gamepad_input.apply(ev);
        }
        self.gamepad_input
    }
}

} // verus!

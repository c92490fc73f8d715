//! The raw joystick: its axis and button name tables and the latest value
//! of each, updated one decoded record at a time.
use vstd::prelude::*;
use crate::event::{decode_event, decode_spec, RawEvent, KIND_AXIS, KIND_BUTTON, KIND_INIT};

verus! {

/// A live event surfaced by a poll, addressed by its index in the name table.
#[derive(Clone, Copy, Debug, PartialEq, Eq, Structural)]
pub enum JsEvent {
    Button { number: usize, pressed: bool },
    /// `value` is the raw reading; `value / 32767` is the normalized one.
    Axis { number: usize, value: i16 },
}

/// The live event, if any, that record `b` carries for a joystick with
/// `n_axes` axes and `n_buttons` buttons. Short reads, init records, records
/// with neither kind bit and indices outside the tables carry none.
pub open spec fn surfaced(b: Seq<u8>, n_axes: nat, n_buttons: nat) -> Option<JsEvent> {
    match decode_spec(b) {
        None => None,
        Some(ev) => {
            if ev.is_init() {
                None
            } else if ev.is_button() {
                if (ev.number as nat) < n_buttons {
                    Some(JsEvent::Button { number: ev.number as usize, pressed: ev.value != 0 })
                } else {
                    None
                }
            } else if ev.is_axis() {
                if (ev.number as nat) < n_axes {
                    Some(JsEvent::Axis { number: ev.number as usize, value: ev.value })
                } else {
                    None
                }
            } else {
                None
            }
        },
    }
}

/// A complete record with the init bit set carries no live event, whatever
/// its other bits and whatever the tables.
pub proof fn lemma_init_record_ignored(b: Seq<u8>, n_axes: nat, n_buttons: nat)
    requires
        b.len() == 8,
        b[6] & 0x80u8 != 0,
    ensures
        surfaced(b, n_axes, n_buttons) is None,
{
}

/// A short or failed read carries no event.
pub proof fn lemma_short_record_ignored(b: Seq<u8>, n_axes: nat, n_buttons: nat)
    requires
        b.len() < 8,
    ensures
        surfaced(b, n_axes, n_buttons) is None,
{
}

/// The ShanWan axis name table.
pub open spec fn shanwan_axis_names() -> Seq<Seq<char>> {
    seq!["lx"@, "ly"@, "rx"@, "ry"@]
}

/// The ShanWan button name table.
pub open spec fn shanwan_button_names() -> Seq<Seq<char>> {
    seq![
        "a"@,
        "b"@,
        "unknown2"@,
        "x"@,
        "y"@,
        "unknown5"@,
        "l1"@,
        "r1"@,
        "l2"@,
        "r2"@,
        "select"@,
        "start"@,
        "home"@,
        "lz"@,
        "rz"@,
    ]
}

/// Name tables and current values of a joystick's axes and buttons. The
/// value tables run parallel to the name tables.
pub struct Joystick {
    axis_states: Vec<i16>,
    button_states: Vec<bool>,
    axis_map: Vec<String>,
    button_map: Vec<String>,
}

impl Joystick {
    pub closed spec fn wf(&self) -> bool {
        &&& self.axis_states@.len() == self.axis_map@.len()
        &&& self.button_states@.len() == self.button_map@.len()
    }

    /// Latest raw reading of each axis, by index.
    pub closed spec fn axes(&self) -> Seq<i16> {
        self.axis_states@
    }

    /// Latest pressed state of each button, by index.
    pub closed spec fn buttons(&self) -> Seq<bool> {
        self.button_states@
    }

    /// The axis name table.
    pub closed spec fn axis_names(&self) -> Seq<Seq<char>> {
        self.axis_map@.map_values(|s: String| s@)
    }

    /// The button name table.
    pub closed spec fn button_names(&self) -> Seq<Seq<char>> {
        self.button_map@.map_values(|s: String| s@)
    }

    /// In a well-formed joystick each value table has one entry per name.
    pub proof fn lemma_tables_parallel(&self)
        requires
            self.wf(),
        ensures
            self.axes().len() == self.axis_names().len(),
            self.buttons().len() == self.button_names().len(),
    {
    }

    /// A joystick with no axes and no buttons: every record is dropped.
    pub fn new() -> (r: Joystick)
        ensures
            r.wf(),
            r.axis_names().len() == 0,
            r.button_names().len() == 0,
            r.axes().len() == 0,
            r.buttons().len() == 0,
    {
        Joystick {
            axis_states: Vec::new(),
            button_states: Vec::new(),
            axis_map: Vec::new(),
            button_map: Vec::new(),
        }
    }

    /// A joystick with the given name tables, every axis at 0 and every
    /// button released.
    pub fn with_mapping(axis_map: Vec<String>, button_map: Vec<String>) -> (r: Joystick)
        ensures
            r.wf(),
            r.axis_names() == axis_map@.map_values(|s: String| s@),
            r.button_names() == button_map@.map_values(|s: String| s@),
            r.axes() == Seq::new(axis_map@.len(), |i: int| 0i16),
            r.buttons() == Seq::new(button_map@.len(), |i: int| false),
    {
        let mut axis_states: Vec<i16> = Vec::new();
        let mut i: usize = 0;
        while i < axis_map.len()
            invariant
                i <= axis_map@.len(),
                axis_states@ == Seq::new(i as nat, |k: int| 0i16),
            decreases axis_map@.len() - i,
        {
            axis_states.push(0);
            i = i + 1;
            assert(axis_states@ =~= Seq::new(i as nat, |k: int| 0i16));
        }
        let mut button_states: Vec<bool> = Vec::new();
        let mut j: usize = 0;
        while j < button_map.len()
            invariant
                j <= button_map@.len(),
                button_states@ == Seq::new(j as nat, |k: int| false),
            decreases button_map@.len() - j,
        {
            button_states.push(false);
            j = j + 1;
            assert(button_states@ =~= Seq::new(j as nat, |k: int| false));
        }
        Joystick { axis_states, button_states, axis_map, button_map }
    }

    /// Installs the ShanWan name tables (axes `lx ly rx ry`; buttons
    /// `a b unknown2 x y unknown5 l1 r1 l2 r2 select start home lz rz`),
    /// every axis at 0 and every button released.
    pub fn init(&mut self)
        ensures
            final(self).wf(),
            final(self).axis_names() == shanwan_axis_names(),
            final(self).button_names() == shanwan_button_names(),
            final(self).axes() == Seq::new(4, |i: int| 0i16),
            final(self).buttons() == Seq::new(15, |i: int| false),
    {
        let axis_map: Vec<String> = vec![
            "lx".to_owned(),
            "ly".to_owned(),
            "rx".to_owned(),
            "ry".to_owned(),
        ];
        let button_map: Vec<String> = vec![
            "a".to_owned(),
            "b".to_owned(),
            "unknown2".to_owned(),
            "x".to_owned(),
            "y".to_owned(),
            "unknown5".to_owned(),
            "l1".to_owned(),
            "r1".to_owned(),
            "l2".to_owned(),
            "r2".to_owned(),
            "select".to_owned(),
            "start".to_owned(),
            "home".to_owned(),
            "lz".to_owned(),
            "rz".to_owned(),
        ];
        assert(axis_map@.map_values(|s: String| s@) =~= shanwan_axis_names());
        assert(button_map@.map_values(|s: String| s@) =~= shanwan_button_names());
        *self = Joystick::with_mapping(axis_map, button_map);
    }

    /// Number of axes in the name table.
    pub fn axis_count(&self) -> (r: usize)
        requires
            self.wf(),
        ensures
            r == self.axes().len(),
    {
        self.axis_states.len()
    }

    /// Number of buttons in the name table.
    pub fn button_count(&self) -> (r: usize)
        requires
            self.wf(),
        ensures
            r == self.buttons().len(),
    {
        self.button_states.len()
    }

    /// Latest raw reading of axis `i`.
    pub fn axis_state(&self, i: usize) -> (r: i16)
        requires
            i < self.axes().len(),
        ensures
            r == self.axes()[i as int],
    {
        self.axis_states[i]
    }

    /// Latest pressed state of button `i`.
    pub fn button_state(&self, i: usize) -> (r: bool)
        requires
            i < self.buttons().len(),
        ensures
            r == self.buttons()[i as int],
    {
        self.button_states[i]
    }

    /// Name of axis `i`.
    pub fn axis_name(&self, i: usize) -> (r: String)
        requires
            self.wf(),
            i < self.axes().len(),
        ensures
            r@ == self.axis_names()[i as int],
    {
        self.axis_map[i].clone()
    }

    /// Name of button `i`.
    pub fn button_name(&self, i: usize) -> (r: String)
        requires
            self.wf(),
            i < self.buttons().len(),
        ensures
            r@ == self.button_names()[i as int],
    {
        self.button_map[i].clone()
    }

    /// Takes in one record read from the device (`b` is what the read
    /// returned, empty on a failed read) and records the live event it
    /// carries, which it returns. Nothing else changes.
    pub fn poll(&mut self, b: &[u8]) -> (r: Option<JsEvent>)
        requires
            old(self).wf(),
        ensures
            final(self).wf(),
            final(self).axis_names() == old(self).axis_names(),
            final(self).button_names() == old(self).button_names(),
            r == surfaced(b@, old(self).axes().len(), old(self).buttons().len()),
            match r {
                None => final(self).axes() == old(self).axes() && final(self).buttons() == old(
                    self,
                ).buttons(),
                Some(JsEvent::Button { number, pressed }) => final(self).axes() == old(self).axes()
                    && final(self).buttons() == old(self).buttons().update(number as int, pressed),
                Some(JsEvent::Axis { number, value }) => final(self).buttons() == old(
                    self,
                ).buttons() && final(self).axes() == old(self).axes().update(number as int, value),
            },
    {
        let ev: RawEvent = match decode_event(b) {
            None => return None,
            Some(ev) => ev,
        };
        if ev.kind & KIND_INIT != 0 {
            return None;
        }
        let number = ev.number as usize;
        if ev.kind & KIND_BUTTON != 0 {
            if number < self.button_states.len() {
                let pressed = ev.value != 0;
                self.button_states.set(number, pressed);
                return Some(JsEvent::Button { number, pressed });
            }
            return None;
        }
        if ev.kind & KIND_AXIS != 0 {
            if number < self.axis_states.len() {
                self.axis_states.set(number, ev.value);
                return Some(JsEvent::Axis { number, value: ev.value });
            }
        }
        None
    }
}

} // verus!

use controller::can::{motor_frame, standard_id, FrameError, MOTOR_CAN_ID, SERVO_CAN_ID};
use controller::control::{step, Action, ControlMode};
use controller::event::{decode_event, RawEvent};
use controller::gamepad::{ButtonReading, ShanWanGamepad, ShanWanGamepadInput, Vector3f};
use controller::joystick::{JsEvent, Joystick};
use controller::motor::MotorCommand;
use socketcan::EmbeddedFrame;

fn record(timestamp: u32, value: i16, kind: u8, number: u8) -> Vec<u8> {
    let mut b = Vec::new();
    b.extend_from_slice(&timestamp.to_le_bytes());
    b.extend_from_slice(&value.to_le_bytes());
    b.push(kind);
    b.push(number);
    b
}

#[test]
fn decode_reads_little_endian_fields() {
    let b = [0x78, 0x56, 0x34, 0x12, 0x01, 0x80, 0x02, 0x03];
    assert_eq!(
        decode_event(&b),
        Some(RawEvent { timestamp: 0x1234_5678, value: -32767, kind: 0x02, number: 3 })
    );
}

#[test]
fn decode_short_record_is_no_event() {
    assert_eq!(decode_event(&[]), None);
    assert_eq!(decode_event(&[1, 2, 3, 4, 5, 6, 7]), None);
}

#[test]
fn init_record_is_ignored() {
    let mut g = ShanWanGamepad::new();
    let before = g.read_data(&[]);
    let after = g.read_data(&record(5, 1, 0x81, 11));
    assert_eq!(before, after);
    assert!(!g.joystick().button_state(11));
    let after = g.read_data(&record(5, 20000, 0x82, 0));
    assert_eq!(before, after);
    assert_eq!(g.joystick().axis_state(0), 0);
}

#[test]
fn short_record_changes_nothing() {
    let mut g = ShanWanGamepad::new();
    g.read_data(&record(1, 1, 0x01, 0));
    let before = g.read_data(&[]);
    let after = g.read_data(&record(2, 0, 0x01, 0)[..5]);
    assert_eq!(before, after);
    assert_eq!(after.button_a, ButtonReading::Pressed);
    assert!(g.joystick().button_state(0));
}

#[test]
fn initial_snapshot_is_unset() {
    let mut g = ShanWanGamepad::new();
    let s = g.read_data(&[]);
    assert_eq!(s, ShanWanGamepadInput::new());
    assert_eq!(s.button_start, ButtonReading::Unset);
    assert_eq!(s.analog_stick_left, Vector3f { x: 0, y: 0, z: 0 });
    assert_eq!(g.joystick().axis_count(), 4);
    assert_eq!(g.joystick().button_count(), 15);
}

#[test]
fn axis_events_set_stick_components() {
    let mut g = ShanWanGamepad::new();
    let s = g.read_data(&record(0, 1000, 0x02, 0));
    assert_eq!(s.analog_stick_left.x, 1000);
    let s = g.read_data(&record(0, -32767, 0x02, 1));
    assert_eq!(s.analog_stick_left.y, 32767);
    let s = g.read_data(&record(0, 32767, 0x02, 2));
    assert_eq!(s.analog_stick_right.x, 32767);
    let s = g.read_data(&record(0, 12345, 0x02, 3));
    assert_eq!(s.analog_stick_right.y, -12345);
    assert_eq!(s.analog_stick_left, Vector3f { x: 1000, y: 32767, z: 0 });
    assert_eq!(g.joystick().axis_state(1), -32767);
    assert_eq!(g.joystick().axis_state(3), 12345);
}

#[test]
fn axis_out_of_range_is_dropped() {
    let mut g = ShanWanGamepad::new();
    let before = g.read_data(&[]);
    let after = g.read_data(&record(0, 500, 0x02, 4));
    assert_eq!(before, after);
}

#[test]
fn named_button_press_sets_only_its_field() {
    let fields: [(u8, fn(&ShanWanGamepadInput) -> ButtonReading); 11] = [
        (0, |s| s.button_a),
        (1, |s| s.button_b),
        (3, |s| s.button_x),
        (4, |s| s.button_y),
        (6, |s| s.button_l1),
        (7, |s| s.button_r1),
        (8, |s| s.button_l2),
        (9, |s| s.button_r2),
        (10, |s| s.button_select),
        (11, |s| s.button_start),
        (12, |s| s.button_home),
    ];
    for (n, get) in fields.iter() {
        let mut g = ShanWanGamepad::new();
        let s = g.read_data(&record(0, 1, 0x01, *n));
        assert_eq!(get(&s), ButtonReading::Pressed);
        for (m, other) in fields.iter() {
            if m != n {
                assert_eq!(other(&s), ButtonReading::Unset);
            }
        }
        assert_eq!(s.analog_stick_left, Vector3f { x: 0, y: 0, z: 0 });
        assert_eq!(s.analog_stick_right, Vector3f { x: 0, y: 0, z: 0 });
        let s = g.read_data(&record(1, 0, 0x01, *n));
        assert_eq!(get(&s), ButtonReading::Released);
    }
}

#[test]
fn unnamed_buttons_update_raw_state_only() {
    let mut g = ShanWanGamepad::new();
    let before = g.read_data(&[]);
    let after = g.read_data(&record(0, 1, 0x01, 2));
    assert_eq!(before, after);
    assert!(g.joystick().button_state(2));
    let after = g.read_data(&record(0, 1, 0x01, 5));
    assert_eq!(before, after);
    assert!(g.joystick().button_state(5));
    let after = g.read_data(&record(0, 1, 0x01, 15));
    assert_eq!(before, after);
}

#[test]
fn stick_z_buttons() {
    let mut g = ShanWanGamepad::new();
    let s = g.read_data(&record(0, 1, 0x01, 13));
    assert_eq!(s.analog_stick_left, Vector3f { x: 0, y: 0, z: 32767 });
    assert_eq!(s.analog_stick_right.z, 0);
    let s = g.read_data(&record(0, 1, 0x01, 14));
    assert_eq!(s.analog_stick_right, Vector3f { x: 0, y: 0, z: 32767 });
    let s = g.read_data(&record(0, 0, 0x01, 13));
    assert_eq!(s.analog_stick_left.z, 0);
    assert_eq!(s.analog_stick_right.z, 32767);
    assert_eq!(s.button_a, ButtonReading::Unset);
}

#[test]
fn joystick_poll_reports_events() {
    let mut js = Joystick::new();
    assert_eq!(js.poll(&record(0, 1, 0x01, 0)), None);
    js.init();
    assert_eq!(js.poll(&record(0, 7, 0x01, 1)), Some(JsEvent::Button { number: 1, pressed: true }));
    assert_eq!(js.poll(&record(0, -9, 0x02, 2)), Some(JsEvent::Axis { number: 2, value: -9 }));
    assert_eq!(js.poll(&record(0, -9, 0x04, 2)), None);
    assert_eq!(js.axis_name(1), "ly");
    assert_eq!(js.button_name(10), "select");
    assert_eq!(js.button_name(14), "rz");
}

#[test]
fn custom_mapping_sets_table_sizes() {
    let mut js = Joystick::with_mapping(vec!["steer".to_string()], vec!["go".to_string()]);
    assert_eq!(js.axis_count(), 1);
    assert_eq!(js.button_count(), 1);
    assert_eq!(js.poll(&record(0, 3, 0x02, 1)), None);
    assert_eq!(js.poll(&record(0, 3, 0x02, 0)), Some(JsEvent::Axis { number: 0, value: 3 }));
    assert_eq!(js.axis_state(0), 3);
}

#[test]
fn full_forward() {
    let c = MotorCommand::from_sticks(0, 32767);
    assert_eq!(c, MotorCommand { left_speed: 4095, right_speed: 4095 });
}

#[test]
fn pivot_turn() {
    let c = MotorCommand::from_sticks(32767, 0);
    assert_eq!(c, MotorCommand { left_speed: -2047, right_speed: 2047 });
}

#[test]
fn mixing_clamps_extremes() {
    let c = MotorCommand::from_sticks(-32767, 32767);
    assert_eq!(c, MotorCommand { left_speed: 4095, right_speed: 2047 });
    let c = MotorCommand::from_sticks(32767, -32767);
    assert_eq!(c, MotorCommand { left_speed: -4095, right_speed: -2047 });
    let c = MotorCommand::from_sticks(-32768, 32768);
    assert_eq!(c, MotorCommand { left_speed: 4095, right_speed: 2047 });
    let c = MotorCommand::from_sticks(i32::MAX, i32::MIN);
    assert_eq!(c, MotorCommand { left_speed: -4095, right_speed: -4095 });
    for s in [-32768, -32767, -1000, 0, 1, 16384, 32767] {
        for t in [-32767, -20000, -1, 0, 5000, 32767, 32768] {
            let c = MotorCommand::from_sticks(s, t);
            assert!((-4095..=4095).contains(&c.left_speed));
            assert!((-4095..=4095).contains(&c.right_speed));
        }
    }
}

#[test]
fn mixing_truncates_toward_zero() {
    // 2 * 4095 / 65534 is just below 1/8.
    let c = MotorCommand::from_sticks(0, 16);
    assert_eq!(c, MotorCommand { left_speed: 1, right_speed: 1 });
    let c = MotorCommand::from_sticks(0, -16);
    assert_eq!(c, MotorCommand { left_speed: -1, right_speed: -1 });
    let c = MotorCommand::from_sticks(0, -8);
    assert_eq!(c, MotorCommand { left_speed: 0, right_speed: 0 });
}

#[test]
fn payload_round_trips() {
    for c in [
        MotorCommand { left_speed: 4095, right_speed: -4095 },
        MotorCommand { left_speed: -2047, right_speed: 2047 },
        MotorCommand { left_speed: 0, right_speed: -1 },
    ] {
        let p = c.payload();
        assert_eq!(i16::from_le_bytes([p[0], p[1]]), c.left_speed);
        assert_eq!(i16::from_le_bytes([p[2], p[3]]), c.right_speed);
    }
    let p = MotorCommand { left_speed: -2047, right_speed: 4095 }.payload();
    assert_eq!(p, [0x01, 0xF8, 0xFF, 0x0F]);
}

#[test]
fn idle_select_has_priority() {
    let mut s = ShanWanGamepadInput::new();
    s.button_select = ButtonReading::Pressed;
    s.button_start = ButtonReading::Pressed;
    assert_eq!(step(ControlMode::Idle, &s), (ControlMode::Idle, Action::Terminate));
}

#[test]
fn idle_start_enters_manual() {
    let mut s = ShanWanGamepadInput::new();
    assert_eq!(step(ControlMode::Idle, &s), (ControlMode::Idle, Action::Continue));
    s.button_start = ButtonReading::Pressed;
    s.button_select = ButtonReading::Released;
    assert_eq!(step(ControlMode::Idle, &s), (ControlMode::Manual, Action::Continue));
    s.button_start = ButtonReading::Released;
    assert_eq!(step(ControlMode::Idle, &s), (ControlMode::Idle, Action::Continue));
}

#[test]
fn manual_b_returns_to_idle_without_frame() {
    let mut s = ShanWanGamepadInput::new();
    s.analog_stick_right.y = 32767;
    s.button_b = ButtonReading::Pressed;
    assert_eq!(step(ControlMode::Manual, &s), (ControlMode::Idle, Action::Continue));
}

#[test]
fn manual_sends_mixed_command() {
    let mut s = ShanWanGamepadInput::new();
    s.analog_stick_right.y = 32767;
    s.button_start = ButtonReading::Pressed;
    s.button_select = ButtonReading::Pressed;
    assert_eq!(
        step(ControlMode::Manual, &s),
        (ControlMode::Manual, Action::Send(MotorCommand { left_speed: 4095, right_speed: 4095 }))
    );
    s.analog_stick_right.y = 0;
    s.analog_stick_left.x = 32767;
    s.button_b = ButtonReading::Released;
    assert_eq!(
        step(ControlMode::Manual, &s),
        (ControlMode::Manual, Action::Send(MotorCommand { left_speed: -2047, right_speed: 2047 }))
    );
}

#[test]
fn loop_from_records() {
    let mut g = ShanWanGamepad::new();
    let mut mode = ControlMode::Idle;
    let s = g.read_data(&record(0, 1, 0x01, 11));
    let (m, a) = step(mode, &s);
    assert_eq!((m, a), (ControlMode::Manual, Action::Continue));
    mode = m;
    let s = g.read_data(&record(1, -32767, 0x02, 3));
    let (m, a) = step(mode, &s);
    assert_eq!(a, Action::Send(MotorCommand { left_speed: 4095, right_speed: 4095 }));
    mode = m;
    let s = g.read_data(&record(2, 1, 0x01, 1));
    assert_eq!(step(mode, &s), (ControlMode::Idle, Action::Continue));
}

#[test]
fn standard_id_bounds() {
    assert!(standard_id(MOTOR_CAN_ID).is_ok());
    assert_eq!(standard_id(SERVO_CAN_ID).unwrap().as_raw(), 45);
    assert_eq!(standard_id(0x7FF).unwrap().as_raw(), 0x7FF);
    assert_eq!(standard_id(0x800).unwrap_err(), FrameError::InvalidId(0x800));
}

#[test]
fn motor_frame_carries_payload() {
    let id = standard_id(MOTOR_CAN_ID).unwrap();
    let cmd = MotorCommand { left_speed: -2047, right_speed: 4095 };
    let frame = motor_frame(id, &cmd);
    assert_eq!(frame.data(), &[0x01, 0xF8, 0xFF, 0x0F]);
    assert_eq!(frame.dlc(), 4);
    assert_eq!(frame.id(), socketcan::Id::Standard(id));
}

#[test]
fn init_installs_shanwan_tables() {
    let mut js = Joystick::new();
    assert_eq!(js.axis_count(), 0);
    assert_eq!(js.button_count(), 0);
    js.init();
    let axes: Vec<String> = (0..js.axis_count()).map(|i| js.axis_name(i)).collect();
    assert_eq!(axes, ["lx", "ly", "rx", "ry"]);
    let buttons: Vec<String> = (0..js.button_count()).map(|i| js.button_name(i)).collect();
    assert_eq!(
        buttons,
        [
            "a", "b", "unknown2", "x", "y", "unknown5", "l1", "r1", "l2", "r2", "select", "start",
            "home", "lz", "rz"
        ]
    );
    assert!((0..4).all(|i| js.axis_state(i) == 0));
    assert!((0..15).all(|i| !js.button_state(i)));
}

#[test]
fn read_data_updates_raw_axis_table() {
    let mut g = ShanWanGamepad::new();
    let s = g.read_data(&[0x00, 0x00, 0x00, 0x00, 0xFF, 0x7F, 0x02, 0x01]);
    assert_eq!(s.analog_stick_left.y, -32767);
    assert_eq!(g.joystick().axis_name(1), "ly");
    assert_eq!(g.joystick().axis_state(1), 32767);
    assert_eq!(g.joystick().axis_state(0), 0);
}

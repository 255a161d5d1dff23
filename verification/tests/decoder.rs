use multi_thread_iced::controller::{convert, map_axis, TransportMode, BLE, SERIAL};
use multi_thread_iced::interface::{Buttons, Dpad, DualShock4, JoyStick};

fn ble_buf(sticks: [u8; 4], code: u8, aux: u8) -> Vec<u8> {
    vec![0, 0, 0, sticks[0], sticks[1], sticks[2], sticks[3], code, aux]
}

fn serial_buf(sticks: [u8; 4], code: u8, aux: u8) -> Vec<u8> {
    vec![0, sticks[0], sticks[1], sticks[2], sticks[3], code, aux]
}

const NEUTRAL_STICKS: [u8; 4] = [128, 128, 128, 128];

fn dpad(up: bool, down: bool, left: bool, right: bool) -> Dpad {
    let mut d = Dpad::new();
    d.up_key = up;
    d.down_key = down;
    d.left_key = left;
    d.right_key = right;
    d
}

fn face(circle: bool, cross: bool, triangle: bool, cube: bool) -> Buttons {
    let mut b = Buttons::new();
    b.circle = circle;
    b.cross = cross;
    b.triangle = triangle;
    b.cube = cube;
    b
}

#[test]
fn axis_extremes_and_centre() {
    assert_eq!(map_axis(0, false), -255);
    assert_eq!(map_axis(255, false), 255);
    assert_eq!(map_axis(0, true), 255);
    assert_eq!(map_axis(255, true), -255);
    assert_eq!(map_axis(127, false), 0);
    assert_eq!(map_axis(128, false), 0);
    assert_eq!(map_axis(127, true), 0);
    assert_eq!(map_axis(128, true), 0);
}

#[test]
fn axis_range_and_dead_zone_all_bytes() {
    for v in 0..=255u8 {
        for inverted in [false, true] {
            let r = map_axis(v, inverted);
            assert!(-255 <= r && r <= 255);
            assert!(r == 0 || r <= -18 || r >= 18);
        }
    }
}

#[test]
fn axis_dead_zone_boundaries() {
    // 2*136 - 255 = 17: the largest magnitude inside the dead zone.
    assert_eq!(map_axis(136, false), 0);
    assert_eq!(map_axis(119, false), 0);
    // 2*137 - 255 = 19: the first magnitude outside it.
    assert_eq!(map_axis(137, false), 19);
    assert_eq!(map_axis(118, false), -19);
}

#[test]
fn axis_inversion_is_mirrored() {
    for v in 0..=255u8 {
        assert_eq!(map_axis(v, true), -map_axis(v, false));
    }
}

#[test]
fn decode_is_deterministic() {
    let buf = ble_buf([3, 250, 128, 99], 72, 66);
    let first = convert(&buf, TransportMode::WirelessBLE);
    let second = convert(&buf, TransportMode::WirelessBLE);
    assert_eq!(first, second);
    let buf = serial_buf([0, 255, 17, 200], 104, 129);
    let first = convert(&buf, TransportMode::WiredSerial);
    let second = convert(&buf, TransportMode::WiredSerial);
    assert_eq!(first, second);
}

#[test]
fn ble_code_table_round_trip() {
    let cases: Vec<(u8, Dpad, Buttons)> = vec![
        (0, dpad(true, false, false, false), face(false, false, false, false)),
        (2, dpad(false, false, false, true), face(false, false, false, false)),
        (4, dpad(false, true, false, false), face(false, false, false, false)),
        (6, dpad(false, false, true, false), face(false, false, false, false)),
        (24, dpad(false, false, false, false), face(false, false, false, true)),
        (40, dpad(false, false, false, false), face(false, true, false, false)),
        (72, dpad(false, false, false, false), face(true, false, false, false)),
        (136, dpad(false, false, false, false), face(false, false, true, false)),
        (8, dpad(false, false, false, false), face(false, false, false, false)),
    ];
    for (code, want_dpad, want_btns) in cases {
        let (j, b, d) = convert(&ble_buf(NEUTRAL_STICKS, code, 0), TransportMode::WirelessBLE);
        assert_eq!(j, JoyStick::new());
        assert_eq!(d, want_dpad, "code {code}");
        assert_eq!(b, want_btns, "code {code}");
    }
}

#[test]
fn serial_code_table_round_trip() {
    let cases: Vec<(u8, Dpad, Buttons)> = vec![
        (0, dpad(true, false, false, false), face(false, false, false, false)),
        (1, dpad(true, false, false, true), face(false, false, false, false)),
        (2, dpad(false, false, false, true), face(false, false, false, false)),
        (3, dpad(false, true, false, true), face(false, false, false, false)),
        (4, dpad(false, true, false, false), face(false, false, false, false)),
        (5, dpad(false, true, true, false), face(false, false, false, false)),
        (6, dpad(false, false, true, false), face(false, false, false, false)),
        (7, dpad(true, false, true, false), face(false, false, false, false)),
        (24, dpad(false, false, false, false), face(false, false, false, true)),
        (40, dpad(false, false, false, false), face(false, true, false, false)),
        (56, dpad(false, false, false, false), face(false, true, false, true)),
        (72, dpad(false, false, false, false), face(true, false, false, false)),
        (88, dpad(false, false, false, false), face(true, false, false, true)),
        (104, dpad(false, false, false, false), face(true, true, false, false)),
        (136, dpad(false, false, false, false), face(false, false, true, false)),
        (152, dpad(false, false, false, false), face(false, false, true, true)),
        (168, dpad(false, false, false, false), face(false, true, true, false)),
        (200, dpad(false, false, false, false), face(true, false, true, false)),
        (8, dpad(false, false, false, false), face(false, false, false, false)),
    ];
    for (code, want_dpad, want_btns) in cases {
        let (j, b, d) = convert(&serial_buf(NEUTRAL_STICKS, code, 0), TransportMode::WiredSerial);
        assert_eq!(j, JoyStick::new());
        assert_eq!(d, want_dpad, "code {code}");
        assert_eq!(b, want_btns, "code {code}");
    }
}

#[test]
fn unknown_codes_decode_to_neutral() {
    for code in [1u8, 9, 50, 137, 255] {
        let (_, b, d) = convert(&ble_buf(NEUTRAL_STICKS, code, 0), TransportMode::WirelessBLE);
        assert_eq!(d, Dpad::new(), "code {code}");
        assert_eq!(b, Buttons::new(), "code {code}");
    }
    for code in [9u8, 25, 100, 201, 255] {
        let (_, b, d) = convert(&serial_buf(NEUTRAL_STICKS, code, 0), TransportMode::WiredSerial);
        assert_eq!(d, Dpad::new(), "code {code}");
        assert_eq!(b, Buttons::new(), "code {code}");
    }
}

#[test]
fn neutral_code_decodes_to_neutral() {
    // Code 8 is in both tables and means "nothing pressed": same result as
    // an unknown code, reached through the table rather than the fallback.
    let (_, b, d) = convert(&ble_buf(NEUTRAL_STICKS, 8, 0), TransportMode::WirelessBLE);
    assert_eq!(d, Dpad::new());
    assert_eq!(b, Buttons::new());
    let (_, b, d) = convert(&serial_buf(NEUTRAL_STICKS, 8, 0), TransportMode::WiredSerial);
    assert_eq!(d, Dpad::new());
    assert_eq!(b, Buttons::new());
}

#[test]
fn auxiliary_bits_each_map_to_one_button() {
    let cases: Vec<(u8, fn(&Buttons) -> bool)> = vec![
        (1, |b: &Buttons| b.l1),
        (2, |b: &Buttons| b.r1),
        (4, |b: &Buttons| b.l2),
        (8, |b: &Buttons| b.r2),
        (64, |b: &Buttons| b.left_push),
        (128, |b: &Buttons| b.right_push),
    ];
    for (aux, pressed) in &cases {
        let (_, b, _) = convert(&ble_buf(NEUTRAL_STICKS, 8, *aux), TransportMode::WirelessBLE);
        assert!(pressed(&b), "aux {aux}");
        let mut expect = Buttons::new();
        match aux {
            1 => expect.l1 = true,
            2 => expect.r1 = true,
            4 => expect.l2 = true,
            8 => expect.r2 = true,
            64 => expect.left_push = true,
            _ => expect.right_push = true,
        }
        assert_eq!(b, expect, "aux {aux}");
        let (_, b, _) = convert(&serial_buf(NEUTRAL_STICKS, 8, *aux), TransportMode::WiredSerial);
        assert_eq!(b, expect, "aux {aux}");
    }
}

#[test]
fn auxiliary_bits_combine() {
    // Bits 1 | 2 | 8 | 64: every set bit must be honored at once.
    let (_, b, _) = convert(&ble_buf(NEUTRAL_STICKS, 8, 75), TransportMode::WirelessBLE);
    assert!(b.l1 && b.r1 && b.r2 && b.left_push);
    assert!(!b.l2 && !b.right_push);
    // All six auxiliary bits together.
    let (_, b, _) = convert(&serial_buf(NEUTRAL_STICKS, 8, 207), TransportMode::WiredSerial);
    assert!(b.l1 && b.r1 && b.l2 && b.r2 && b.left_push && b.right_push);
    assert!(!b.circle && !b.cross && !b.triangle && !b.cube);
}

#[test]
fn wired_scenario_cross_then_up_right() {
    let buf = serial_buf([128, 128, 128, 128], 40, 0);
    let (j, b, d) = convert(&buf, TransportMode::WiredSerial);
    assert_eq!(j, JoyStick::new());
    assert!(b.cross);
    assert_eq!(d, Dpad::new());

    let buf = serial_buf([128, 128, 128, 128], 1, 0);
    let (_, _, d) = convert(&buf, TransportMode::WiredSerial);
    assert!(d.up_key && d.right_key);
    assert!(!d.down_key && !d.left_key);
}

#[test]
fn wireless_scenario_triangle_and_auxiliaries() {
    let (_, b, d) = convert(&ble_buf(NEUTRAL_STICKS, 136, 0), TransportMode::WirelessBLE);
    let mut expect = Buttons::new();
    expect.triangle = true;
    assert_eq!(b, expect);
    assert_eq!(d, Dpad::new());

    let (_, b, _) = convert(&ble_buf(NEUTRAL_STICKS, 8, 8), TransportMode::WirelessBLE);
    let mut expect = Buttons::new();
    expect.r2 = true;
    assert_eq!(b, expect);

    let (_, b, _) = convert(&ble_buf(NEUTRAL_STICKS, 8, 64), TransportMode::WirelessBLE);
    let mut expect = Buttons::new();
    expect.left_push = true;
    assert_eq!(b, expect);
}

#[test]
fn wired_offsets_start_one_byte_earlier() {
    // The same stick bytes placed per-transport decode to the same axes.
    let wired = serial_buf([0, 255, 137, 118], 8, 0);
    let wireless = ble_buf([0, 255, 137, 118], 8, 0);
    let (jw, _, _) = convert(&wired, TransportMode::WiredSerial);
    let (jb, _, _) = convert(&wireless, TransportMode::WirelessBLE);
    assert_eq!(jw, jb);
    assert_eq!(jw.left_x, -255);
    assert_eq!(jw.left_y, -255);
    assert_eq!(jw.right_x, 19);
    assert_eq!(jw.right_y, 19);
}

#[test]
fn unrecognized_transport_decodes_to_neutral() {
    assert_eq!(TransportMode::from_tag(BLE), TransportMode::WirelessBLE);
    assert_eq!(TransportMode::from_tag(SERIAL), TransportMode::WiredSerial);
    assert_eq!(TransportMode::from_tag(0), TransportMode::Unrecognized);
    assert_eq!(TransportMode::from_tag(51), TransportMode::Unrecognized);

    let buf = ble_buf([0, 0, 255, 255], 1, 255);
    let (j, b, d) = convert(&buf, TransportMode::Unrecognized);
    assert_eq!(j, JoyStick::new());
    assert_eq!(b, Buttons::new());
    assert_eq!(d, Dpad::new());
}

#[test]
fn constructors_are_neutral() {
    let j = JoyStick::new();
    assert_eq!((j.left_x, j.left_y, j.right_x, j.right_y), (0, 0, 0, 0));
    let d = Dpad::new();
    assert!(!d.up_key && !d.down_key && !d.left_key && !d.right_key);
    let b = Buttons::new();
    assert!(!b.circle && !b.cross && !b.triangle && !b.cube);
    assert!(!b.r1 && !b.r2 && !b.l1 && !b.l2 && !b.left_push && !b.right_push);
    let ds = DualShock4::new();
    assert_eq!(ds.sticks, j);
    assert_eq!(ds.btns, b);
    assert_eq!(ds.dpad, d);
}

//! The report decoder and the acquisition-loop model.
//!
//! A report is a fixed-layout byte buffer. Its layout depends on the
//! transport: wireless (Bluetooth LE) reports carry leading framing bytes
//! that wired (serial) reports omit, so every wired offset is one less than
//! the wireless one. The decoder is total: an unrecognized transport tag or
//! code byte degrades to the neutral state, never to an error.

use vstd::prelude::*;
use crate::interface::{Buttons, Dpad, DualShock4, JoyStick};

verus! {

/// Configuration tag selecting the wireless (Bluetooth LE) transport.
pub const BLE: u8 = 50;

/// Configuration tag selecting the wired (serial) transport.
pub const SERIAL: u8 = 100;

/// The transport a report was read over, which fixes the byte layout of the
/// report. Any configuration tag other than the two known ones maps to
/// `Unrecognized`, which decodes every report to the all-neutral state.
#[derive(Clone, Copy, Debug, PartialEq, Eq, Structural)]
pub enum TransportMode {
    WirelessBLE,
    WiredSerial,
    Unrecognized,
}

impl TransportMode {
    /// The transport selected by a raw configuration tag.
    pub open spec fn spec_from_tag(tag: u8) -> TransportMode {
        if tag == BLE {
            TransportMode::WirelessBLE
        } else if tag == SERIAL {
            TransportMode::WiredSerial
        } else {
            TransportMode::Unrecognized
        }
    }

    /// Map a raw configuration tag to the transport it selects; unknown
    /// tags select `Unrecognized` rather than failing.
    pub fn from_tag(tag: u8) -> (m: TransportMode)
        ensures
            m == TransportMode::spec_from_tag(tag),
    {
        if tag == BLE {
            TransportMode::WirelessBLE
        } else if tag == SERIAL {
            TransportMode::WiredSerial
        } else {
            TransportMode::Unrecognized
        }
    }
}

/// Linear remap of a raw byte to an axis numerator over 255, before the
/// dead zone: 0 maps to one extreme, 255 to the other. An upright axis
/// grows with the byte; an inverted (vertical) axis shrinks with it.
pub open spec fn spec_raw_axis(v: u8, inverted: bool) -> int {
    if inverted {
        255 - 2 * (v as int)
    } else {
        2 * (v as int) - 255
    }
}

/// The dead-zone clamp: a numerator whose magnitude is below 18 (i.e. a
/// deflection below 0.07 of full scale) is noise and becomes exactly 0.
pub open spec fn spec_dead_zone(n: int) -> int {
    if -18 < n < 18 {
        0
    } else {
        n
    }
}

/// The decoded value of one axis byte: remap, then dead-zone clamp.
pub open spec fn spec_axis(v: u8, inverted: bool) -> int {
    spec_dead_zone(spec_raw_axis(v, inverted))
}

/// Decode one raw axis byte into its numerator over 255.
pub fn map_axis(v: u8, inverted: bool) -> (r: i16)
    ensures
        r as int == spec_axis(v, inverted),
{
    let wide: i16 = 2 * (v as i16);
    let raw: i16 = if inverted {
        255 - wide
    } else {
        wide - 255
    };
    if -18 < raw && raw < 18 {
        0
    } else {
        raw
    }
}

/// Every raw byte decodes to an axis numerator in the representable range;
/// the extreme bytes reach the two extremes (swapped on an inverted axis),
/// and the two near-centre bytes clamp to exactly zero.
pub proof fn lemma_axis_range(v: u8, inverted: bool)
    ensures
        -255 <= spec_axis(v, inverted) <= 255,
        v == 0 && !inverted ==> spec_axis(v, inverted) == -255,
        v == 0 && inverted ==> spec_axis(v, inverted) == 255,
        v == 255 && !inverted ==> spec_axis(v, inverted) == 255,
        v == 255 && inverted ==> spec_axis(v, inverted) == -255,
        v == 127 || v == 128 ==> spec_axis(v, inverted) == 0,
{
}

/// The wireless code table lists only the neutral code, the four cardinal
/// pad directions and the four single face buttons.
pub open spec fn ble_code_known(code: u8) -> bool {
    ||| code == 0
    ||| code == 2
    ||| code == 4
    ||| code == 6
    ||| code == 8
    ||| code == 24
    ||| code == 40
    ||| code == 72
    ||| code == 136
}

/// Directional pad decoded from a wireless code byte: cardinal directions
/// only.
pub open spec fn spec_ble_dpad(code: u8) -> Dpad {
    Dpad {
        up_key: code == 0,
        down_key: code == 4,
        left_key: code == 6,
        right_key: code == 2,
    }
}

/// Buttons decoded from a wireless code byte and the auxiliary bitmask
/// byte: single face buttons from the code table, one auxiliary button per
/// bit.
pub open spec fn spec_ble_buttons(code: u8, aux: u8) -> Buttons {
    Buttons {
        circle: code == 72,
        cross: code == 40,
        triangle: code == 136,
        cube: code == 24,
        r1: aux & 2 != 0,
        r2: aux & 8 != 0,
        l1: aux & 1 != 0,
        l2: aux & 4 != 0,
        left_push: aux & 64 != 0,
        right_push: aux & 128 != 0,
    }
}

/// The wired code table additionally lists the four diagonal pad directions
/// and six two-button face combinations.
pub open spec fn serial_code_known(code: u8) -> bool {
    ||| code == 0
    ||| code == 1
    ||| code == 2
    ||| code == 3
    ||| code == 4
    ||| code == 5
    ||| code == 6
    ||| code == 7
    ||| code == 8
    ||| code == 24
    ||| code == 40
    ||| code == 56
    ||| code == 72
    ||| code == 88
    ||| code == 104
    ||| code == 136
    ||| code == 152
    ||| code == 168
    ||| code == 200
}

/// Directional pad decoded from a wired code byte: the eight codes 0..7
/// walk the compass clockwise from up, odd codes being the diagonals.
pub open spec fn spec_serial_dpad(code: u8) -> Dpad {
    Dpad {
        up_key: code == 0 || code == 1 || code == 7,
        down_key: code == 3 || code == 4 || code == 5,
        left_key: code == 5 || code == 6 || code == 7,
        right_key: code == 1 || code == 2 || code == 3,
    }
}

/// Buttons decoded from a wired code byte and the auxiliary bitmask byte:
/// each two-button combination code raises both of its face buttons.
pub open spec fn spec_serial_buttons(code: u8, aux: u8) -> Buttons {
    Buttons {
        circle: code == 72 || code == 88 || code == 104 || code == 200,
        cross: code == 40 || code == 56 || code == 104 || code == 168,
        triangle: code == 136 || code == 152 || code == 168 || code == 200,
        cube: code == 24 || code == 56 || code == 88 || code == 152,
        r1: aux & 2 != 0,
        r2: aux & 8 != 0,
        l1: aux & 1 != 0,
        l2: aux & 4 != 0,
        left_push: aux & 64 != 0,
        right_push: aux & 128 != 0,
    }
}

/// The shortest buffer each transport can decode: one past the highest
/// byte offset the transport reads. The unrecognized transport reads
/// nothing.
pub open spec fn min_report_len(mode: TransportMode) -> int {
    match mode {
        TransportMode::WirelessBLE => 9,
        TransportMode::WiredSerial => 7,
        TransportMode::Unrecognized => 0,
    }
}

/// Runtime form of [`min_report_len`], for callers that must check a
/// report's length before decoding it.
pub fn required_len(mode: TransportMode) -> (n: usize)
    ensures
        n as int == min_report_len(mode),
{
    match mode {
        TransportMode::WirelessBLE => 9,
        TransportMode::WiredSerial => 7,
        TransportMode::Unrecognized => 0,
    }
}

/// The stick axes a report decodes to. Wireless stick bytes sit at offsets
/// 3..=6, wired ones at 1..=4; vertical axes are inverted so that up is
/// positive.
pub open spec fn spec_sticks(buf: Seq<u8>, mode: TransportMode) -> JoyStick
    recommends
        min_report_len(mode) <= buf.len(),
{
    match mode {
        TransportMode::WirelessBLE => JoyStick {
            left_x: spec_axis(buf[3], false) as i16,
            left_y: spec_axis(buf[4], true) as i16,
            right_x: spec_axis(buf[5], false) as i16,
            right_y: spec_axis(buf[6], true) as i16,
        },
        TransportMode::WiredSerial => JoyStick {
            left_x: spec_axis(buf[1], false) as i16,
            left_y: spec_axis(buf[2], true) as i16,
            right_x: spec_axis(buf[3], false) as i16,
            right_y: spec_axis(buf[4], true) as i16,
        },
        TransportMode::Unrecognized => JoyStick::spec_neutral(),
    }
}

/// The buttons a report decodes to. The code byte sits at offset 7
/// (wireless) or 5 (wired), the auxiliary bitmask byte right after it.
pub open spec fn spec_buttons(buf: Seq<u8>, mode: TransportMode) -> Buttons
    recommends
        min_report_len(mode) <= buf.len(),
{
    match mode {
        TransportMode::WirelessBLE => spec_ble_buttons(buf[7], buf[8]),
        TransportMode::WiredSerial => spec_serial_buttons(buf[5], buf[6]),
        TransportMode::Unrecognized => Buttons::spec_neutral(),
    }
}

/// The directional pad a report decodes to, from the same code byte as the
/// face buttons.
pub open spec fn spec_dpad(buf: Seq<u8>, mode: TransportMode) -> Dpad
    recommends
        min_report_len(mode) <= buf.len(),
{
    match mode {
        TransportMode::WirelessBLE => spec_ble_dpad(buf[7]),
        TransportMode::WiredSerial => spec_serial_dpad(buf[5]),
        TransportMode::Unrecognized => Dpad::spec_neutral(),
    }
}

/// Everything one report decodes to.
pub open spec fn spec_convert(buf: Seq<u8>, mode: TransportMode) -> (JoyStick, Buttons, Dpad)
    recommends
        min_report_len(mode) <= buf.len(),
{
    (spec_sticks(buf, mode), spec_buttons(buf, mode), spec_dpad(buf, mode))
}

/// Decode one raw report into sticks, buttons and directional pad.
///
/// Total over its domain: an unrecognized code byte or transport yields the
/// neutral value for the affected fields, never an error. The buffer must
/// cover every offset the transport reads.
pub fn convert(buf: &[u8], mode: TransportMode) -> (r: (JoyStick, Buttons, Dpad))
    requires
        min_report_len(mode) <= buf@.len(),
    ensures
        r == spec_convert(buf@, mode),
        r.0.wf(),
{
    match mode {
        TransportMode::WirelessBLE => {
            let l_x = map_axis(buf[3], false);
            let l_y = map_axis(buf[4], true);
            let r_x = map_axis(buf[5], false);
            let r_y = map_axis(buf[6], true);
            let joy = JoyStick { left_x: l_x, left_y: l_y, right_x: r_x, right_y: r_y };
            let mut btns = Buttons::new();
            let mut dpad = Dpad::new();

            match buf[7] {
                0 => dpad.up_key = true,
                2 => dpad.right_key = true,
                4 => dpad.down_key = true,
                6 => dpad.left_key = true,
                24 => btns.cube = true,
                40 => btns.cross = true,
                72 => btns.circle = true,
                136 => btns.triangle = true,
                8 => (),
                _ => (),
            }

            let aux = buf[8];
            btns.l1 = aux & 1 != 0;
            btns.r1 = aux & 2 != 0;
            btns.l2 = aux & 4 != 0;
            btns.r2 = aux & 8 != 0;
            btns.left_push = aux & 64 != 0;
            btns.right_push = aux & 128 != 0;
            (joy, btns, dpad)
        }
        TransportMode::WiredSerial => {
            let l_x = map_axis(buf[1], false);
            let l_y = map_axis(buf[2], true);
            let r_x = map_axis(buf[3], false);
            let r_y = map_axis(buf[4], true);
            let joy = JoyStick { left_x: l_x, left_y: l_y, right_x: r_x, right_y: r_y };
            let mut btns = Buttons::new();
            let mut dpad = Dpad::new();

            match buf[5] {
                0 => dpad.up_key = true,
                1 => {
                    dpad.up_key = true;
                    dpad.right_key = true;
                },
                2 => dpad.right_key = true,
                3 => {
                    dpad.right_key = true;
                    dpad.down_key = true;
                },
                4 => dpad.down_key = true,
                5 => {
                    dpad.left_key = true;
                    dpad.down_key = true;
                },
                6 => dpad.left_key = true,
                7 => {
                    dpad.left_key = true;
                    dpad.up_key = true;
                },
                24 => btns.cube = true,
                40 => btns.cross = true,
                56 => {
                    btns.cube = true;
                    btns.cross = true;
                },
                72 => btns.circle = true,
                88 => {
                    btns.circle = true;
                    btns.cube = true;
                },
                104 => {
                    btns.circle = true;
                    btns.cross = true;
                },
                136 => btns.triangle = true,
                152 => {
                    btns.cube = true;
                    btns.triangle = true;
                },
                168 => {
                    btns.triangle = true;
                    btns.cross = true;
                },
                200 => {
                    btns.triangle = true;
                    btns.circle = true;
                },
                8 => (),
                _ => (),
            }

            let aux = buf[6];
            btns.l1 = aux & 1 != 0;
            btns.r1 = aux & 2 != 0;
            btns.l2 = aux & 4 != 0;
            btns.r2 = aux & 8 != 0;
            btns.left_push = aux & 64 != 0;
            btns.right_push = aux & 128 != 0;
            (joy, btns, dpad)
        }
        TransportMode::Unrecognized => {
            (JoyStick::new(), Buttons::new(), Dpad::new())
        }
    }
}

/// A failed blocking read: the device disconnected, errored or became
/// unreadable. The acquisition loop does not retry; it surfaces this to its
/// owner and stops.
#[derive(Clone, Copy, Debug, PartialEq, Eq, Structural)]
pub struct DeviceReadError {}

/// What the acquisition loop does with the outcome of one blocking read:
/// publish the decoded state to the consumer, or surface the failure and
/// terminate.
#[derive(Clone, Copy, Debug, PartialEq, Eq, Structural)]
pub enum LoopAction {
    Publish(DualShock4),
    Terminate(DeviceReadError),
}

/// The complete controller state one report decodes to.
pub open spec fn spec_state(buf: Seq<u8>, mode: TransportMode) -> DualShock4
    recommends
        min_report_len(mode) <= buf.len(),
{
    DualShock4 {
        sticks: spec_sticks(buf, mode),
        btns: spec_buttons(buf, mode),
        dpad: spec_dpad(buf, mode),
    }
}

/// One turn of the acquisition loop: a successful read is decoded and must
/// be published; a failed read terminates the loop, carrying the failure to
/// the owner.
pub fn step(read: &Result<Vec<u8>, DeviceReadError>, mode: TransportMode) -> (a: LoopAction)
    requires
        read matches Ok(b) ==> min_report_len(mode) <= b@.len(),
    ensures
        read matches Ok(b) ==> a == LoopAction::Publish(spec_state(b@, mode)),
        read matches Err(e) ==> a == LoopAction::Terminate(*e),
{
    match read {
        Ok(b) => {
            let (j, btn, d) = convert(b.as_slice(), mode);
            LoopAction::Publish(DualShock4 { sticks: j, btns: btn, dpad: d })
        }
        Err(e) => LoopAction::Terminate(*e),
    }
}

/// What one run of the acquisition loop produced: the states published to
/// the consumer, in order, and the failure that ended the loop, if one did.
pub struct AcquisitionLog {
    pub published: Vec<DualShock4>,
    pub failure: Option<DeviceReadError>,
}

/// The acquisition loop over a recorded sequence of read outcomes: each
/// successful read is decoded and published exactly once, in read order,
/// until the first failed read, which is surfaced exactly once and ends the
/// loop; nothing is published after it.
pub fn run_acquisition(
    reads: &Vec<Result<Vec<u8>, DeviceReadError>>,
    mode: TransportMode,
) -> (r: AcquisitionLog)
    requires
        forall|j: int|
            0 <= j < reads@.len() ==> ((#[trigger] reads@[j]) matches Ok(b) ==> min_report_len(
                mode,
            ) <= b@.len()),
    ensures
        r.published@.len() <= reads@.len(),
        forall|j: int| 0 <= j < r.published@.len() ==> (#[trigger] reads@[j]) is Ok,
        forall|j: int|
            0 <= j < r.published@.len() ==> #[trigger] r.published@[j] == spec_state(
                reads@[j]->Ok_0@,
                mode,
            ),
        r.failure is Some <==> r.published@.len() < reads@.len(),
        r.published@.len() < reads@.len() ==> (reads@[r.published@.len() as int] matches Err(e)
            && r.failure == Some(e)),
{
    let mut published: Vec<DualShock4> = Vec::new();
    let mut failure: Option<DeviceReadError> = None;
    let mut i: usize = 0;
    while i < reads.len() && failure.is_none()
        invariant
            i <= reads@.len(),
            published@.len() == i as int,
            forall|j: int| 0 <= j < i ==> (#[trigger] reads@[j]) is Ok,
            forall|j: int|
                0 <= j < i ==> #[trigger] published@[j] == spec_state(
                    reads@[j]->Ok_0@,
                    mode,
                ),
            failure matches Some(f) ==> i < reads@.len() && (reads@[i as int] matches Err(e)
                && f == e),
            forall|j: int|
                0 <= j < reads@.len() ==> ((#[trigger] reads@[j]) matches Ok(b) ==> min_report_len(
                    mode,
                ) <= b@.len()),
        decreases reads@.len() - i + (if failure is None { 1int } else { 0int }),
    {
        let outcome = step(&reads[i], mode);
        match outcome {
            LoopAction::Publish(s) => {
                published.push(s);
                i = i + 1;
            }
            LoopAction::Terminate(e) => {
                failure = Some(e);
            }
        }
    }
    AcquisitionLog { published, failure }
}

/// Decoding is deterministic: the decoded state is a function of the raw
/// buffer and the transport mode alone, so decoding the same report twice
/// yields identical values.
pub proof fn lemma_decode_deterministic(
    buf1: Seq<u8>,
    buf2: Seq<u8>,
    mode1: TransportMode,
    mode2: TransportMode,
)
    requires
        buf1 == buf2,
        mode1 == mode2,
    ensures
        spec_convert(buf1, mode1) == spec_convert(buf2, mode2),
{
}

/// A code byte absent from the transport's table decodes to the all-false
/// pad and leaves every face button released, whatever the auxiliary byte
/// says; it is not an error.
pub proof fn lemma_unknown_code_neutral(code: u8, aux: u8)
    ensures
        !ble_code_known(code) ==> spec_ble_dpad(code) == Dpad::spec_neutral(),
        !ble_code_known(code) ==> spec_ble_buttons(code, aux).face_neutral(),
        !serial_code_known(code) ==> spec_serial_dpad(code) == Dpad::spec_neutral(),
        !serial_code_known(code) ==> spec_serial_buttons(code, aux).face_neutral(),
{
}

} // verus!
//! Value types for the decoded controller state.
//!
//! Analog stick deflections are kept as exact integer numerators over a
//! fixed denominator of 255: a stored axis value `a` stands for the
//! deflection `a / 255` of full scale, so the representable range
//! `[-255, 255]` stands for `[-1.0, 1.0]`. Keeping the numerator instead
//! of a rounded fraction makes the dead-zone rule exact: a deflection whose
//! magnitude is below the dead-zone threshold (0.07 of full scale, i.e. a
//! numerator of magnitude below [`AXIS_DEAD_ZONE`]) is clamped to exactly 0.

use vstd::prelude::*;

verus! {

/// Numerator of full deflection: an axis value of 255 means `1.0`,
/// -255 means `-1.0`.
pub const AXIS_MAX: i16 = 255;

/// Smallest numerator magnitude that survives the dead-zone clamp.
/// 18/255 is the least representable magnitude above the 0.07 noise
/// threshold (0.07 * 255 = 17.85).
pub const AXIS_DEAD_ZONE: i16 = 18;

/// One motion command for a downstream microcontroller: planar velocity,
/// rotation and two auxiliary motor channels.
pub struct Packet {
    pub x: i32,
    pub y: i32,
    pub ro: i32,
    pub m1: i32,
    pub m2: i32,
}

/// A single axis numerator is well formed when it lies in the representable
/// range and respects the dead-zone clamp: it is zero, or its magnitude is
/// at least [`AXIS_DEAD_ZONE`].
pub open spec fn axis_wf(a: i16) -> bool {
    &&& -255 <= a <= 255
    &&& (a == 0 || a <= -18 || 18 <= a)
}

/// The four analog stick axes, as exact numerators over 255.
/// Horizontal axes grow rightward, vertical axes grow upward.
#[derive(Clone, Copy, Debug, PartialEq, Eq, Structural)]
pub struct JoyStick {
    pub left_x: i16,
    pub left_y: i16,
    pub right_x: i16,
    pub right_y: i16,
}

impl JoyStick {
    /// Every axis is in range and dead-zone clamped.
    pub open spec fn wf(self) -> bool {
        &&& axis_wf(self.left_x)
        &&& axis_wf(self.left_y)
        &&& axis_wf(self.right_x)
        &&& axis_wf(self.right_y)
    }

    /// All four axes at rest.
    pub open spec fn spec_neutral() -> JoyStick {
        JoyStick { left_x: 0, left_y: 0, right_x: 0, right_y: 0 }
    }

    /// Neutral sticks: every axis exactly centred.
    pub fn new() -> (r: JoyStick)
        ensures
            r == JoyStick::spec_neutral(),
            r.wf(),
    {
        JoyStick { left_x: 0, left_y: 0, right_x: 0, right_y: 0 }
    }
}

/// The directional pad: four independent keys; diagonals press two at once.
#[derive(Clone, Copy, Debug, PartialEq, Eq, Structural)]
pub struct Dpad {
    pub up_key: bool,
    pub down_key: bool,
    pub left_key: bool,
    pub right_key: bool,
}

impl Dpad {
    /// No key pressed.
    pub open spec fn spec_neutral() -> Dpad {
        Dpad { up_key: false, down_key: false, left_key: false, right_key: false }
    }

    /// Neutral pad: no key pressed.
    pub fn new() -> (r: Dpad)
        ensures
            r == Dpad::spec_neutral(),
    {
        Dpad { up_key: false, down_key: false, left_key: false, right_key: false }
    }
}

/// The fixed button set: four face buttons and six auxiliary buttons
/// (bumpers, triggers, stick clicks).
#[derive(Clone, Copy, Debug, PartialEq, Eq, Structural)]
pub struct Buttons {
    pub circle: bool,
    pub cross: bool,
    pub triangle: bool,
    pub cube: bool,
    pub r1: bool,
    pub r2: bool,
    pub l1: bool,
    pub l2: bool,
    pub left_push: bool,
    pub right_push: bool,
}

impl Buttons {
    /// No button pressed.
    pub open spec fn spec_neutral() -> Buttons {
        Buttons {
            circle: false,
            cross: false,
            triangle: false,
            cube: false,
            r1: false,
            r2: false,
            l1: false,
            l2: false,
            left_push: false,
            right_push: false,
        }
    }

    /// The face buttons alone, disregarding the auxiliary buttons, are all
    /// released.
    pub open spec fn face_neutral(self) -> bool {
        !self.circle && !self.cross && !self.triangle && !self.cube
    }

    /// Neutral button set: nothing pressed.
    pub fn new() -> (r: Buttons)
        ensures
            r == Buttons::spec_neutral(),
    {
        Buttons {
            circle: false,
            cross: false,
            triangle: false,
            cube: false,
            r1: false,
            r2: false,
            l1: false,
            l2: false,
            left_push: false,
            right_push: false,
        }
    }
}

/// One complete decoded controller state: the unit produced per report and
/// sent across the thread boundary by value.
#[derive(Clone, Copy, Debug, PartialEq, Eq, Structural)]
pub struct DualShock4 {
    pub sticks: JoyStick,
    pub btns: Buttons,
    pub dpad: Dpad,
}

impl DualShock4 {
    /// Everything at rest: the state shown before any report has arrived.
    pub open spec fn spec_neutral() -> DualShock4 {
        DualShock4 {
            sticks: JoyStick::spec_neutral(),
            btns: Buttons::spec_neutral(),
            dpad: Dpad::spec_neutral(),
        }
    }

    /// All-neutral state.
    pub fn new() -> (r: DualShock4)
        ensures
            r == DualShock4::spec_neutral(),
    {
        DualShock4 { sticks: JoyStick::new(), btns: Buttons::new(), dpad: Dpad::new() }
    }
}

/// An addressable microcontroller endpoint, as enumeration reports it.
pub struct MCUDevice {
    pub address_port: String,
    pub device_name: String,
}

/// The set of microcontroller endpoints found by an enumeration pass.
pub struct MCUDeviceList {
    pub devices: Vec<MCUDevice>,
}

} // verus!

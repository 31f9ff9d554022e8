//! The status document that is sent to the display client.
//!
//! A report carries raw device values. On the wire a value `v` stands for the
//! number `v / SCALE`, so that a raw reading spans the interval from -1 to 1;
//! a button counts as pressed when its value is not zero.

use vstd::prelude::*;

verus! {

/// The raw value that stands for 1 on the wire.
pub const SCALE: i16 = 32767;

/// Index of the one gamepad this system serves.
pub const GAMEPAD_INDEX: u32 = 0;

/// Timestamp carried by every report.
pub const TIMESTAMP: u64 = 0;

/// One button of a report.
#[derive(Clone, Copy, Debug, PartialEq, Eq, Structural)]
pub struct Button {
    /// Whether the button is held down.
    pub pressed: bool,
    /// Raw pressure of the button.
    pub value: i16,
}

/// The seven fields of a status document.
#[derive(Debug)]
pub struct Report {
    /// Raw position of each axis, in device order.
    pub axes: Vec<i16>,
    /// State of each button, in device order.
    pub buttons: Vec<Button>,
    /// Whether a device is attached.
    pub connected: bool,
    /// Name of the device; empty until one has been attached.
    pub id: String,
    /// Always [`GAMEPAD_INDEX`].
    pub index: u32,
    /// Always empty.
    pub mapping: String,
    /// Always [`TIMESTAMP`].
    pub timestamp: u64,
}

/// Mathematical value of a [`Report`].
pub struct ReportView {
    pub axes: Seq<i16>,
    pub buttons: Seq<Button>,
    pub connected: bool,
    pub id: Seq<char>,
    pub index: u32,
    pub mapping: Seq<char>,
    pub timestamp: u64,
}

impl View for Report {
    type V = ReportView;

    open spec fn view(&self) -> ReportView {
        ReportView {
            axes: self.axes@,
            buttons: self.buttons@,
            connected: self.connected,
            id: self.id@,
            index: self.index,
            mapping: self.mapping@,
            timestamp: self.timestamp,
        }
    }
}

/// The button that a raw pressure is reported as.
pub open spec fn button_of(value: i16) -> Button {
    Button { pressed: value != 0, value }
}

/// The buttons that raw pressures are reported as, in the same order.
pub open spec fn buttons_of(values: Seq<i16>) -> Seq<Button> {
    Seq::new(values.len(), |i: int| button_of(values[i]))
}

/// Every raw value but the lowest lies within full scale, so that it stands
/// for a number from -1 to 1; the lowest lies one step below.
pub proof fn lemma_full_scale(value: i16)
    ensures
        value != i16::MIN ==> -SCALE <= value <= SCALE,
        i16::MIN == -SCALE - 1,
{
}

impl Button {
    /// Reports a raw pressure.
    pub fn from_value(value: i16) -> (button: Button)
        ensures
            button == button_of(value),
    {
        Button { pressed: value != 0, value }
    }
}

} // verus!

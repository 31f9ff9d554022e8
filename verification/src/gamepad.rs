//! The state of the one gamepad: whether it is attached, its name, and the
//! last reading of each axis and button.

use crate::descriptor::{Descriptor, DescriptorView};
use crate::event::{record_at, record_count, values_from, RawEvent, RECORD_SIZE};
use crate::report::{buttons_of, Button, Report, ReportView, GAMEPAD_INDEX, TIMESTAMP};
use vstd::prelude::*;

verus! {

/// Largest number of axes or buttons that a device can report.
pub const MAX_CONTROLS: usize = 255;

/// State of the gamepad. The number of axes and of buttons changes only when
/// a device is attached with [`Gamepad::connect`].
#[derive(Debug)]
pub struct Gamepad {
    name: String,
    buttons: Vec<i16>,
    axes: Vec<i16>,
    connected: bool,
}

/// Mathematical value of a [`Gamepad`].
pub struct GamepadView {
    pub name: Seq<char>,
    pub buttons: Seq<i16>,
    pub axes: Seq<i16>,
    pub connected: bool,
}

/// Why a refresh failed.
#[derive(Clone, Copy, Debug, PartialEq, Eq, Structural)]
pub enum RefreshError {
    /// The device could not be opened.
    Unavailable,
    /// The device went away while record number `record` was read.
    Lost { record: usize },
}

/// `values` cut or filled up with zeros to the length `count`.
pub open spec fn resized(values: Seq<i16>, count: nat) -> Seq<i16> {
    Seq::new(
        count,
        |i: int|
            if i < values.len() {
                values[i]
            } else {
                0i16
            },
    )
}

impl GamepadView {
    /// No more than [`MAX_CONTROLS`] axes and buttons each.
    pub open spec fn wf(self) -> bool {
        self.buttons.len() <= MAX_CONTROLS && self.axes.len() <= MAX_CONTROLS
    }

    /// The state before any device was attached.
    pub open spec fn fresh() -> GamepadView {
        GamepadView { name: Seq::empty(), buttons: Seq::empty(), axes: Seq::empty(), connected: false }
    }

    /// Number of records that one refresh reads.
    pub open spec fn records_needed(self) -> nat {
        self.buttons.len() + self.axes.len()
    }

    /// The state after a device with descriptor `d` was attached.
    pub open spec fn attached(self, d: DescriptorView) -> GamepadView {
        GamepadView {
            name: d.name,
            buttons: resized(self.buttons, d.buttons as nat),
            axes: resized(self.axes, d.axes as nat),
            connected: true,
        }
    }

    /// The state after the device went away.
    pub open spec fn detached(self) -> GamepadView {
        GamepadView { connected: false, ..self }
    }

    /// Whether `stream` holds all records of one refresh.
    pub open spec fn is_complete(self, stream: Seq<u8>) -> bool {
        record_count(stream) >= self.records_needed()
    }

    /// The state after the records of `stream` were taken in: the buttons
    /// come first, then the axes.
    pub open spec fn refreshed(self, stream: Seq<u8>) -> GamepadView {
        GamepadView {
            buttons: values_from(stream, 0, self.buttons.len()),
            axes: values_from(stream, self.buttons.len() as int, self.axes.len()),
            ..self
        }
    }

    /// The outcome of a refresh attempt. `None` stands for a device that
    /// could not be opened.
    pub open spec fn refresh_outcome(self, readout: Option<Seq<u8>>) -> Result<(), RefreshError> {
        match readout {
            None => Err(RefreshError::Unavailable),
            Some(stream) => if self.is_complete(stream) {
                Ok(())
            } else {
                Err(RefreshError::Lost { record: record_count(stream) as usize })
            },
        }
    }

    /// The state after a refresh attempt.
    pub open spec fn after_refresh(self, readout: Option<Seq<u8>>) -> GamepadView {
        match readout {
            Some(stream) if self.is_complete(stream) => self.refreshed(stream),
            _ => self.detached(),
        }
    }

    /// The status document of this state.
    pub open spec fn report(self) -> ReportView {
        ReportView {
            axes: self.axes,
            buttons: buttons_of(self.buttons),
            connected: self.connected,
            id: self.name,
            index: GAMEPAD_INDEX,
            mapping: Seq::empty(),
            timestamp: TIMESTAMP,
        }
    }
}

/// Ordering: a refresh gives the first records of the stream to the
/// buttons and the records after them to the axes, each in device order,
/// however many buttons and axes there are. Their numbers do not change.
pub proof fn lemma_buttons_before_axes(state: GamepadView, stream: Seq<u8>)
    requires
        state.is_complete(stream),
    ensures
        state.after_refresh(Some(stream)).buttons.len() == state.buttons.len(),
        state.after_refresh(Some(stream)).axes.len() == state.axes.len(),
        forall|i: int|
            0 <= i < state.buttons.len() ==> #[trigger] state.after_refresh(
                Some(stream),
            ).buttons[i] == record_at(stream, i).value,
        forall|j: int|
            0 <= j < state.axes.len() ==> #[trigger] state.after_refresh(Some(stream)).axes[j]
                == record_at(stream, state.buttons.len() + j).value,
        state.after_refresh(Some(stream)).connected == state.connected,
        state.after_refresh(Some(stream)).name == state.name,
{
}

/// Atomic disconnection: a refresh that fails, at whatever record, marks the
/// device as gone and leaves every reading and the name as they were.
pub proof fn lemma_failed_refresh_keeps_readings(state: GamepadView, readout: Option<Seq<u8>>)
    requires
        state.refresh_outcome(readout) is Err,
    ensures
        !state.after_refresh(readout).connected,
        state.after_refresh(readout).buttons == state.buttons,
        state.after_refresh(readout).axes == state.axes,
        state.after_refresh(readout).name == state.name,
{
}

/// The shape is fixed between connects: no refresh, whatever comes of it,
/// and no disconnect changes the number of axes or of buttons.
pub proof fn lemma_shape_fixed(state: GamepadView, readout: Option<Seq<u8>>)
    ensures
        state.after_refresh(readout).buttons.len() == state.buttons.len(),
        state.after_refresh(readout).axes.len() == state.axes.len(),
        state.detached().buttons.len() == state.buttons.len(),
        state.detached().axes.len() == state.axes.len(),
        state.wf() ==> state.after_refresh(readout).wf() && state.detached().wf(),
{
}

/// Reconnecting resets the shape: whatever the state was, after a device
/// is attached there are exactly as many axes and buttons as it reports.
pub proof fn lemma_reconnect_resets_shape(state: GamepadView, d: DescriptorView)
    ensures
        state.attached(d).axes.len() == d.axes,
        state.attached(d).buttons.len() == d.buttons,
        state.attached(d).records_needed() == d.axes + d.buttons,
        state.attached(d).name == d.name,
        state.attached(d).connected,
        state.attached(d).wf(),
{
}

/// The bytes that a refresh read, `None` standing for a device that could
/// not be opened.
pub open spec fn readout_view(readout: Option<&[u8]>) -> Option<Seq<u8>> {
    match readout {
        Some(stream) => Some(stream@),
        None => None,
    }
}

impl View for Gamepad {
    type V = GamepadView;

    closed spec fn view(&self) -> GamepadView {
        GamepadView {
            name: self.name@,
            buttons: self.buttons@,
            axes: self.axes@,
            connected: self.connected,
        }
    }
}

/// Decodes the values of `count` records of `stream`, from record `first` on.
fn decode_values(stream: &[u8], first: usize, count: usize) -> (values: Vec<i16>)
    requires
        first + count <= record_count(stream@),
    ensures
        values@ == values_from(stream@, first as int, count as nat),
{
    let mut values: Vec<i16> = Vec::new();
    let mut i: usize = 0;
    assert(record_count(stream@) <= stream.len());
    while i < count
        invariant
            i <= count,
            first + count <= record_count(stream@) <= usize::MAX,
            values@ == values_from(stream@, first as int, i as nat),
        decreases count - i,
    {
        let event = RawEvent::decode(stream, first + i).unwrap();
        values.push(event.value);
        i += 1;
    }
    values
}

impl Gamepad {
    #[verifier::type_invariant]
    spec fn counts_fit(&self) -> bool {
        self.buttons.len() <= MAX_CONTROLS && self.axes.len() <= MAX_CONTROLS
    }

    /// The state before any device was attached: no name, no axes, no
    /// buttons, not connected.
    pub fn new() -> (gamepad: Gamepad)
        ensures
            gamepad@ == GamepadView::fresh(),
    {
        Gamepad { name: String::new(), buttons: Vec::new(), axes: Vec::new(), connected: false }
    }

    /// Name of the device that was attached last.
    pub fn name(&self) -> (name: &String)
        ensures
            name@ == self@.name,
    {
        &self.name
    }

    /// Last reading of each button.
    pub fn buttons(&self) -> (buttons: &Vec<i16>)
        ensures
            buttons@ == self@.buttons,
    {
        &self.buttons
    }

    /// Last reading of each axis.
    pub fn axes(&self) -> (axes: &Vec<i16>)
        ensures
            axes@ == self@.axes,
    {
        &self.axes
    }

    /// Whether a device is attached.
    pub fn is_connected(&self) -> (connected: bool)
        ensures
            connected == self@.connected,
    {
        self.connected
    }

    /// Number of records that one refresh reads: one for each button and
    /// one for each axis.
    pub fn records_needed(&self) -> (count: usize)
        ensures
            count == self@.records_needed(),
            count <= 2 * MAX_CONTROLS,
    {
        proof {
            use_type_invariant(self);
        }
        self.buttons.len() + self.axes.len()
    }

    /// Attaches a device: takes its name, and cuts or fills up the axes and
    /// buttons to the counts it reports. Readings that stay keep their
    /// values, new ones start at zero.
    pub fn connect(&mut self, descriptor: Descriptor)
        ensures
            final(self)@ == old(self)@.attached(descriptor@),
    {
        proof {
            use_type_invariant(&*self);
        }
        let mut buttons = self.buttons.clone();
        let mut axes = self.axes.clone();
        buttons.resize(descriptor.buttons as usize, 0);
        axes.resize(descriptor.axes as usize, 0);
        assert(buttons@ =~= resized(self.buttons@, descriptor.buttons as nat));
        assert(axes@ =~= resized(self.axes@, descriptor.axes as nat));
        self.name = descriptor.name;
        self.buttons = buttons;
        self.axes = axes;
        self.connected = true;
    }

    /// Marks the device as gone. Name and readings stay as they are.
    pub fn disconnect(&mut self)
        ensures
            final(self)@ == old(self)@.detached(),
    {
        proof {
            use_type_invariant(&*self);
        }
        self.connected = false;
    }

    /// Takes in what one refresh read from the device. `readout` is `None`
    /// when the device could not be opened, else the bytes of the records
    /// that were read before the device failed or all were there.
    ///
    /// With all records there, the first go to the buttons and the rest to
    /// the axes, each in device order, and the connection flag stays. With
    /// fewer, the device counts as gone: no reading changes and the error
    /// names the record at which the stream ended.
    pub fn update_state(&mut self, readout: Option<&[u8]>) -> (outcome: Result<(), RefreshError>)
        ensures
            outcome == old(self)@.refresh_outcome(readout_view(readout)),
            final(self)@ == old(self)@.after_refresh(readout_view(readout)),
    {
        proof {
            use_type_invariant(&*self);
        }
        let stream = match readout {
            Some(stream) => stream,
            None => {
                self.connected = false;
                return Err(RefreshError::Unavailable);
            },
        };
        let received: usize = stream.len() / RECORD_SIZE;
        let button_count: usize = self.buttons.len();
        let axis_count: usize = self.axes.len();
        if received < button_count + axis_count {
            self.connected = false;
            return Err(RefreshError::Lost { record: received });
        }
        let buttons = decode_values(stream, 0, button_count);
        let axes = decode_values(stream, button_count, axis_count);
        self.buttons = buttons;
        self.axes = axes;
        Ok(())
    }

    /// The status document of the current state.
    pub fn report(&self) -> (report: Report)
        ensures
            report@ == self@.report(),
    {
        let mut buttons: Vec<Button> = Vec::new();
        let mut i: usize = 0;
        while i < self.buttons.len()
            invariant
                i <= self.buttons.len(),
                buttons@ == buttons_of(self.buttons@.subrange(0, i as int)),
            decreases self.buttons.len() - i,
        {
            buttons.push(Button::from_value(self.buttons[i]));
            i += 1;
        }
        assert(self.buttons@.subrange(0, i as int) == self.buttons@);
        Report {
            axes: self.axes.clone(),
            buttons,
            connected: self.connected,
            id: self.name.clone(),
            index: GAMEPAD_INDEX,
            mapping: String::new(),
            timestamp: TIMESTAMP,
        }
    }
}

} // verus!

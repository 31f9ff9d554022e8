//! The session loop as a state machine.
//!
//! A session serves one display client. The client asks for an update by
//! sending a heartbeat, which is any bytes at all; the session answers each
//! heartbeat with one status document. In between it attaches the device if
//! none is attached and takes a fresh reading of it. The session decides;
//! its caller waits, reads and writes, and reports each outcome with
//! [`Session::step`], which answers with what to do next.

use crate::descriptor::Descriptor;
use crate::gamepad::{Gamepad, GamepadView};
use crate::report::{Report, ReportView};
use vstd::prelude::*;

verus! {

/// TCP port on which the display client is awaited.
pub const PORT: u16 = 56709;

/// Whether what a read from the client returned is a heartbeat: one byte or
/// more. A read that failed (`None`) or returned nothing means that the
/// client is gone.
pub open spec fn is_heartbeat(read: Option<usize>) -> bool {
    read matches Some(count) && count > 0
}

/// Where a session stands.
#[derive(Clone, Copy, Debug, PartialEq, Eq, Structural)]
pub enum Phase {
    /// No client yet.
    AwaitingPeer,
    /// A client is there; waiting for its next heartbeat.
    Idle,
    /// Waiting for the device node to appear.
    Locating,
    /// Reading the descriptor of the device.
    Describing,
    /// Reading the event records of the device.
    Refreshing,
    /// Writing the status document to the client.
    Sending,
    /// The client is gone; its connection is being discarded.
    Disconnected,
}

/// What the caller reports back to the session.
#[derive(Debug)]
pub enum Event {
    /// Whether a client was accepted.
    Accepted { ok: bool },
    /// What a read from the client returned: the number of bytes, or `None`
    /// when it failed.
    PeerRead { read: Option<usize> },
    /// Whether the device node is there.
    Located { ok: bool },
    /// The descriptor of the device, or `None` when it could not be read.
    Described { descriptor: Option<Descriptor> },
    /// The bytes of the event records that were read before the device
    /// failed or all were there, or `None` when the device could not be
    /// opened.
    Refreshed { readout: Option<Vec<u8>> },
    /// Whether the status document was written.
    Sent { ok: bool },
    /// The connection of the client was discarded.
    Closed,
}

/// What the caller does next.
#[derive(Debug)]
pub enum Action {
    /// Wait for a client.
    Accept,
    /// Wait for bytes from the client.
    AwaitHeartbeat,
    /// Wait for the device node to appear.
    Locate,
    /// Read the descriptor of the device.
    Describe,
    /// Open the device and read this many event records.
    Refresh { records: usize },
    /// Write this status document to the client.
    Send { report: Report },
    /// Discard the connection of the client.
    Close,
}

/// Mathematical value of an [`Action`].
pub enum ActionView {
    Accept,
    AwaitHeartbeat,
    Locate,
    Describe,
    Refresh { records: nat },
    Send { report: ReportView },
    Close,
}

impl View for Action {
    type V = ActionView;

    open spec fn view(&self) -> ActionView {
        match self {
            Action::Accept => ActionView::Accept,
            Action::AwaitHeartbeat => ActionView::AwaitHeartbeat,
            Action::Locate => ActionView::Locate,
            Action::Describe => ActionView::Describe,
            Action::Refresh { records } => ActionView::Refresh { records: *records as nat },
            Action::Send { report } => ActionView::Send { report: report@ },
            Action::Close => ActionView::Close,
        }
    }
}

/// A session: its phase and the state of the gamepad.
#[derive(Debug)]
pub struct Session {
    phase: Phase,
    gamepad: Gamepad,
}

/// Mathematical value of a [`Session`].
pub struct SessionView {
    pub phase: Phase,
    pub gamepad: GamepadView,
}

impl View for Session {
    type V = SessionView;

    closed spec fn view(&self) -> SessionView {
        SessionView { phase: self.phase, gamepad: self.gamepad@ }
    }
}

/// The bytes that a refresh read, `None` standing for a device that could
/// not be opened.
pub open spec fn readout_bytes(readout: Option<Vec<u8>>) -> Option<Seq<u8>> {
    match readout {
        Some(stream) => Some(stream@),
        None => None,
    }
}

impl SessionView {
    /// A session that waits for its client.
    pub open spec fn initial() -> SessionView {
        SessionView { phase: Phase::AwaitingPeer, gamepad: GamepadView::fresh() }
    }

    /// The session in another phase.
    pub open spec fn at(self, phase: Phase) -> SessionView {
        SessionView { phase, ..self }
    }

    /// The session after its client was lost: the state of the gamepad is
    /// dropped with the connection.
    pub open spec fn torn_down() -> SessionView {
        SessionView { phase: Phase::Disconnected, gamepad: GamepadView::fresh() }
    }

    /// What the caller is to do in this state.
    pub open spec fn action(self) -> ActionView {
        match self.phase {
            Phase::AwaitingPeer => ActionView::Accept,
            Phase::Idle => ActionView::AwaitHeartbeat,
            Phase::Locating => ActionView::Locate,
            Phase::Describing => ActionView::Describe,
            Phase::Refreshing => ActionView::Refresh { records: self.gamepad.records_needed() },
            Phase::Sending => ActionView::Send { report: self.gamepad.report() },
            Phase::Disconnected => ActionView::Close,
        }
    }

    /// The state after `event`. An event that does not answer the action of
    /// the state changes nothing.
    pub open spec fn next(self, event: Event) -> SessionView {
        match (self.phase, event) {
            (Phase::AwaitingPeer, Event::Accepted { ok }) => if ok {
                SessionView { phase: Phase::Idle, gamepad: GamepadView::fresh() }
            } else {
                self
            },
            (Phase::Idle, Event::PeerRead { read }) => if !is_heartbeat(read) {
                SessionView::torn_down()
            } else if self.gamepad.connected {
                self.at(Phase::Refreshing)
            } else {
                self.at(Phase::Locating)
            },
            (Phase::Locating, Event::Located { ok }) => if ok {
                self.at(Phase::Describing)
            } else {
                self.at(Phase::Refreshing)
            },
            (Phase::Describing, Event::Described { descriptor }) => match descriptor {
                Some(d) => SessionView {
                    phase: Phase::Refreshing,
                    gamepad: self.gamepad.attached(d@),
                },
                None => self.at(Phase::Refreshing),
            },
            (Phase::Refreshing, Event::Refreshed { readout }) => SessionView {
                phase: Phase::Sending,
                gamepad: self.gamepad.after_refresh(readout_bytes(readout)),
            },
            (Phase::Sending, Event::Sent { ok }) => if ok {
                self.at(Phase::Idle)
            } else {
                SessionView::torn_down()
            },
            (Phase::Disconnected, Event::Closed) => SessionView::initial(),
            _ => self,
        }
    }
}

/// `event` reports the outcome of the action that `phase` waits on.
pub open spec fn answers(phase: Phase, event: Event) -> bool {
    match phase {
        Phase::AwaitingPeer => event is Accepted,
        Phase::Idle => event is PeerRead,
        Phase::Locating => event is Located,
        Phase::Describing => event is Described,
        Phase::Refreshing => event is Refreshed,
        Phase::Sending => event is Sent,
        Phase::Disconnected => event is Closed,
    }
}

/// `event` brings a heartbeat of the client.
pub open spec fn brings_heartbeat(event: Event) -> bool {
    match event {
        Event::PeerRead { read } => is_heartbeat(read),
        _ => false,
    }
}

/// `event` tells a session in `phase` that its client is gone: a read that
/// is no heartbeat, or a write that failed.
pub open spec fn loses_client(phase: Phase, event: Event) -> bool {
    match (phase, event) {
        (Phase::Idle, Event::PeerRead { read }) => !is_heartbeat(read),
        (Phase::Sending, Event::Sent { ok }) => !ok,
        _ => false,
    }
}

/// How many outcomes a phase is away from sending the status document, at
/// most.
pub open spec fn steps_to_send(phase: Phase) -> nat {
    match phase {
        Phase::Locating => 3,
        Phase::Describing => 2,
        Phase::Refreshing => 1,
        _ => 0,
    }
}

impl SessionView {
    /// What holds of every state that a session reaches: without a client
    /// there is no gamepad state, and the device is looked for and described
    /// only while none is attached.
    pub open spec fn inv(self) -> bool {
        &&& self.gamepad.wf()
        &&& (self.phase is AwaitingPeer || self.phase is Disconnected) ==> self.gamepad
            == GamepadView::fresh()
        &&& (self.phase is Locating || self.phase is Describing) ==> !self.gamepad.connected
    }
}

/// The invariant holds at the start and after every event.
pub proof fn lemma_invariant(state: SessionView, event: Event)
    requires
        state.inv(),
    ensures
        SessionView::initial().inv(),
        state.next(event).inv(),
{
}

/// An event that does not answer the pending action changes nothing.
pub proof fn lemma_stray_event_ignored(state: SessionView, event: Event)
    requires
        !answers(state.phase, event),
    ensures
        state.next(event) == state,
{
}

/// Every heartbeat is answered with a status document: once a heartbeat has
/// come, each outcome that the caller reports, good or bad, brings the
/// session nearer to sending, and none is needed after the refresh.
pub proof fn lemma_heartbeat_leads_to_send(state: SessionView, event: Event)
    requires
        answers(state.phase, event),
    ensures
        state.phase is Idle && brings_heartbeat(event) ==> {
            ||| state.next(event).phase is Locating && !state.gamepad.connected
            ||| state.next(event).phase is Refreshing && state.gamepad.connected
        },
        steps_to_send(state.phase) > 0 ==> {
            &&& steps_to_send(state.next(event).phase) < steps_to_send(state.phase)
            &&& steps_to_send(state.next(event).phase) == 0 ==> state.next(event).phase is Sending
        },
{
}

/// The refresh attempt is always followed by sending, whatever came of it,
/// and the document sent is that of the state after the attempt.
pub proof fn lemma_refresh_then_send(state: SessionView, readout: Option<Vec<u8>>)
    requires
        state.phase is Refreshing,
    ensures
        state.next(Event::Refreshed { readout }).action() == (ActionView::Send {
            report: state.gamepad.after_refresh(readout_bytes(readout)).report(),
        }),
{
}

/// After a descriptor was read, one record is asked for each button and each
/// axis that it reports.
pub proof fn lemma_describe_then_refresh(state: SessionView, descriptor: Descriptor)
    requires
        state.phase is Describing,
    ensures
        state.next(Event::Described { descriptor: Some(descriptor) }).action()
            == (ActionView::Refresh { records: (descriptor.axes + descriptor.buttons) as nat }),
{
}

/// Losing the client, by a read that is no heartbeat or by a failed write,
/// drops the state of the gamepad; the next session starts clean.
pub proof fn lemma_lost_client_resets(state: SessionView, event: Event)
    requires
        loses_client(state.phase, event),
    ensures
        state.next(event) == SessionView::torn_down(),
        state.next(event).action() == ActionView::Close,
        state.next(event).next(Event::Closed) == SessionView::initial(),
{
}

impl Session {
    /// A session that waits for its client; no device is attached.
    pub fn new() -> (session: Session)
        ensures
            session@ == SessionView::initial(),
            session@.inv(),
    {
        Session { phase: Phase::AwaitingPeer, gamepad: Gamepad::new() }
    }

    /// The phase of the session.
    pub fn phase(&self) -> (phase: Phase)
        ensures
            phase == self@.phase,
    {
        self.phase
    }

    /// The state of the gamepad.
    pub fn gamepad(&self) -> (gamepad: &Gamepad)
        ensures
            gamepad@ == self@.gamepad,
    {
        &self.gamepad
    }

    /// What the caller is to do now.
    pub fn pending(&self) -> (action: Action)
        ensures
            action@ == self@.action(),
    {
        match self.phase {
            Phase::AwaitingPeer => Action::Accept,
            Phase::Idle => Action::AwaitHeartbeat,
            Phase::Locating => Action::Locate,
            Phase::Describing => Action::Describe,
            Phase::Refreshing => Action::Refresh { records: self.gamepad.records_needed() },
            Phase::Sending => Action::Send { report: self.gamepad.report() },
            Phase::Disconnected => Action::Close,
        }
    }

    /// Takes in what the caller reports and says what to do next.
    pub fn step(&mut self, event: Event) -> (action: Action)
        ensures
            final(self)@ == old(self)@.next(event),
            action@ == final(self)@.action(),
            old(self)@.inv() ==> final(self)@.inv(),
    {
        match (self.phase, event) {
            (Phase::AwaitingPeer, Event::Accepted { ok }) => {
                if ok {
                    self.gamepad = Gamepad::new();
                    self.phase = Phase::Idle;
                }
            },
            (Phase::Idle, Event::PeerRead { read }) => {
                let heartbeat = match read {
                    Some(count) => count > 0,
                    None => false,
                };
                if !heartbeat {
                    self.gamepad = Gamepad::new();
                    self.phase = Phase::Disconnected;
                } else if self.gamepad.is_connected() {
                    self.phase = Phase::Refreshing;
                } else {
                    self.phase = Phase::Locating;
                }
            },
            (Phase::Locating, Event::Located { ok }) => {
                self.phase = if ok {
                    Phase::Describing
                } else {
                    Phase::Refreshing
                };
            },
            (Phase::Describing, Event::Described { descriptor }) => {
                match descriptor {
                    Some(d) => {
                        self.gamepad.connect(d);
                    },
                    None => {},
                }
                self.phase = Phase::Refreshing;
            },
            (Phase::Refreshing, Event::Refreshed { readout }) => {
                let _ = match &readout {
                    Some(stream) => self.gamepad.update_state(Some(stream.as_slice())),
                    None => self.gamepad.update_state(None),
                };
                self.phase = Phase::Sending;
            },
            (Phase::Sending, Event::Sent { ok }) => {
                if ok {
                    self.phase = Phase::Idle;
                } else {
                    self.gamepad = Gamepad::new();
                    self.phase = Phase::Disconnected;
                }
            },
            (Phase::Disconnected, Event::Closed) => {
                self.gamepad = Gamepad::new();
                self.phase = Phase::AwaitingPeer;
            },
            _ => {},
        }
        self.pending()
    }
}

} // verus!

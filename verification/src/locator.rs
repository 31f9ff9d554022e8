//! Waiting for the device node to appear.
//!
//! The locator decides; its caller does the work. The caller looks whether
//! the device node is there, subscribes to creation notices for the device
//! directory and reads them, blocking, and reports each outcome with
//! [`Locator::step`], which answers with what to do next.

use vstd::prelude::*;

verus! {

/// Directory that holds the device node.
pub const DEVICE_DIR: &'static str = "/dev/input";

/// Path of the device node.
pub const DEVICE_PATH: &'static str = "/dev/input/js0";

/// Mask bits of a notice that says a file was created in a watched
/// directory.
pub const IN_CREATE: u32 = 0x100;

/// Name of the device node inside its directory: `js0`.
pub open spec fn device_node() -> Seq<u8> {
    seq![0x6au8, 0x73u8, 0x30u8]
}

/// The node that is waited for is the node that is opened: the device path
/// is the device directory, a slash, and the name of the device node.
pub proof fn lemma_device_path()
    ensures
        DEVICE_PATH@ == DEVICE_DIR@.push('/') + device_node().map_values(|byte: u8| byte as char),
{
    reveal_strlit("/dev/input");
    reveal_strlit("/dev/input/js0");
}

/// A notice about a file in the watched directory.
#[derive(Debug)]
pub struct WatchEvent {
    /// Name of the file that the notice is about, if it has one.
    pub name: Option<Vec<u8>>,
    /// Mask bits that say what happened.
    pub mask: u32,
}

/// Asks inotify for the mask of its `EventMask::CREATE`, which is the
/// kernel's `IN_CREATE`.
#[verifier::external_body]
fn creation_mask() -> (bits: u32)
    ensures
        bits == IN_CREATE,
{
    inotify::EventMask::CREATE.bits()
}

/// `event` says that the device node was created: it carries the node's name
/// and its mask is the creation mask and nothing else.
pub open spec fn announces_device(event: WatchEvent) -> bool {
    &&& event.name matches Some(name)
    &&& name@ == device_node()
    &&& event.mask == IN_CREATE
}

/// One of `events` says that the device node was created.
pub open spec fn any_announces_device(events: Seq<WatchEvent>) -> bool {
    exists|i: int| 0 <= i < events.len() && announces_device(#[trigger] events[i])
}

/// Whether `event` says that the device node was created.
pub fn is_device_created(event: &WatchEvent) -> (created: bool)
    ensures
        created == announces_device(*event),
{
    match &event.name {
        Some(name) => {
            let named = name.len() == 3 && name[0] == 0x6a && name[1] == 0x73 && name[2] == 0x30;
            assert(named == (name@ =~= device_node()));
            named && event.mask == creation_mask()
        },
        None => false,
    }
}

/// Whether one of `events` says that the device node was created.
pub fn any_device_created(events: &Vec<WatchEvent>) -> (created: bool)
    ensures
        created == any_announces_device(events@),
{
    let mut i: usize = 0;
    while i < events.len()
        invariant
            i <= events.len(),
            forall|k: int| 0 <= k < i ==> !announces_device(#[trigger] events@[k]),
        decreases events.len() - i,
    {
        if is_device_created(&events[i]) {
            return true;
        }
        i += 1;
    }
    false
}

/// Where the search for the device stands.
#[derive(Clone, Copy, Debug, PartialEq, Eq, Structural)]
pub enum Locator {
    /// Looking whether the device node is there already.
    Probing,
    /// Subscribing to creation notices for the device directory.
    Subscribing,
    /// Blocked until notices arrive.
    Watching,
    /// The device node is there.
    Found,
    /// The notification subsystem failed; this attempt is over.
    Failed,
}

/// What the caller reports back to the locator.
#[derive(Debug)]
pub enum Signal {
    /// Whether the device node is there.
    Probed { present: bool },
    /// Whether the subscription was set up.
    Subscribed { ok: bool },
    /// The notices that one blocking read returned.
    Notified { events: Vec<WatchEvent> },
    /// The blocking read failed.
    ReadFailed,
}

/// What the caller does next.
#[derive(Clone, Copy, Debug, PartialEq, Eq, Structural)]
pub enum Task {
    /// Look whether the device node is there.
    Probe,
    /// Subscribe to creation notices for the device directory.
    Subscribe,
    /// Read notices, blocking until there are some.
    Read,
    /// Stop: the device is there.
    Finish,
    /// Stop: the device cannot be waited for.
    GiveUp,
}

impl Locator {
    /// What the caller is to do in this state.
    pub open spec fn task(self) -> Task {
        match self {
            Locator::Probing => Task::Probe,
            Locator::Subscribing => Task::Subscribe,
            Locator::Watching => Task::Read,
            Locator::Found => Task::Finish,
            Locator::Failed => Task::GiveUp,
        }
    }

    /// The state after `signal`. A signal that does not answer the task of
    /// the state changes nothing.
    pub open spec fn next(self, signal: Signal) -> Locator {
        match (self, signal) {
            (Locator::Probing, Signal::Probed { present }) => if present {
                Locator::Found
            } else {
                Locator::Subscribing
            },
            (Locator::Subscribing, Signal::Subscribed { ok }) => if ok {
                Locator::Watching
            } else {
                Locator::Failed
            },
            (Locator::Watching, Signal::Notified { events }) => if any_announces_device(events@) {
                Locator::Found
            } else {
                Locator::Watching
            },
            (Locator::Watching, Signal::ReadFailed) => Locator::Failed,
            _ => self,
        }
    }

    /// A new search; its first task is to probe.
    pub fn new() -> (locator: Locator)
        ensures
            locator == Locator::Probing,
    {
        Locator::Probing
    }

    /// What the caller is to do now.
    pub fn pending(&self) -> (task: Task)
        ensures
            task == self.task(),
    {
        match self {
            Locator::Probing => Task::Probe,
            Locator::Subscribing => Task::Subscribe,
            Locator::Watching => Task::Read,
            Locator::Found => Task::Finish,
            Locator::Failed => Task::GiveUp,
        }
    }

    /// Takes in what the caller reports and says what to do next.
    pub fn step(&mut self, signal: Signal) -> (task: Task)
        ensures
            *final(self) == old(self).next(signal),
            task == final(self).task(),
    {
        match (*self, signal) {
            (Locator::Probing, Signal::Probed { present }) => {
                *self = if present {
                    Locator::Found
                } else {
                    Locator::Subscribing
                };
            },
            (Locator::Subscribing, Signal::Subscribed { ok }) => {
                *self = if ok {
                    Locator::Watching
                } else {
                    Locator::Failed
                };
            },
            (Locator::Watching, Signal::Notified { events }) => {
                if any_device_created(&events) {
                    *self = Locator::Found;
                }
            },
            (Locator::Watching, Signal::ReadFailed) => {
                *self = Locator::Failed;
            },
            _ => {},
        }
        self.pending()
    }
}

} // verus!

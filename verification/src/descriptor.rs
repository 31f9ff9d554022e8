//! What a newly attached device reports about itself: how many axes and
//! buttons it has, and its name.
//!
//! The three capability queries are made by the caller; this module turns
//! their raw outcomes into a [`Descriptor`] or says which stage failed.

use vstd::prelude::*;
use vstd::slice::slice_subrange;
use vstd::utf8::{decode_utf8, valid_utf8};

verus! {

/// Size of the buffer that the name query is made with.
pub const NAME_CAPACITY: usize = 128;

/// Capabilities and name of an attached device.
#[derive(Debug)]
pub struct Descriptor {
    /// Number of axes.
    pub axes: u8,
    /// Number of buttons.
    pub buttons: u8,
    /// Name of the device.
    pub name: String,
}

/// Mathematical value of a [`Descriptor`].
pub struct DescriptorView {
    pub axes: u8,
    pub buttons: u8,
    pub name: Seq<char>,
}

impl View for Descriptor {
    type V = DescriptorView;

    open spec fn view(&self) -> DescriptorView {
        DescriptorView { axes: self.axes, buttons: self.buttons, name: self.name@ }
    }
}

/// The stage at which reading a descriptor failed.
#[derive(Clone, Copy, Debug, PartialEq, Eq, Structural)]
pub enum DescriptorError {
    /// The axis count could not be queried.
    AxisQueryFailed,
    /// The button count could not be queried.
    ButtonQueryFailed,
    /// The name could not be queried.
    NameQueryFailed,
    /// The name buffer holds no NUL byte.
    NameNotTerminated,
}

/// The text that `String::from_utf8_lossy` makes of `bytes`.
pub uninterp spec fn utf8_lossy(bytes: Seq<u8>) -> Seq<char>;

/// Calls `String::from_utf8_lossy` and takes ownership of the result.
///
/// The text depends on the bytes alone. Bytes that are valid UTF-8 decode to
/// the text they encode; what becomes of other bytes is left to the
/// standard library.
#[verifier::external_body]
fn decode_lossy(bytes: &[u8]) -> (text: String)
    ensures
        text@ == utf8_lossy(bytes@),
        valid_utf8(bytes@) ==> text@ == decode_utf8(bytes@),
{
    String::from_utf8_lossy(bytes).into_owned()
}

/// `at` is the position of the first NUL byte of `buf`.
pub open spec fn is_terminator(buf: Seq<u8>, at: int) -> bool {
    &&& 0 <= at < buf.len()
    &&& buf[at] == 0
    &&& forall|i: int| 0 <= i < at ==> buf[i] != 0
}

/// `buf` holds a NUL byte.
pub open spec fn is_terminated(buf: Seq<u8>) -> bool {
    exists|at: int| is_terminator(buf, at)
}

/// `name` is the text in front of the first NUL byte of `buf`.
pub open spec fn is_name_of(buf: Seq<u8>, name: Seq<char>) -> bool {
    exists|at: int| is_terminator(buf, at) && name == utf8_lossy(buf.subrange(0, at))
}

/// The stage at which the three query outcomes fail, if any. `None` stands
/// for a query that failed; the stages are taken in the order in which the
/// queries are made.
pub open spec fn failing_stage(
    axes: Option<u8>,
    buttons: Option<u8>,
    name: Option<Seq<u8>>,
) -> Option<DescriptorError> {
    if axes is None {
        Some(DescriptorError::AxisQueryFailed)
    } else if buttons is None {
        Some(DescriptorError::ButtonQueryFailed)
    } else if name is None {
        Some(DescriptorError::NameQueryFailed)
    } else if !is_terminated(name->0) {
        Some(DescriptorError::NameNotTerminated)
    } else {
        None
    }
}

/// The bytes of a name buffer, `None` standing for a query that failed.
pub open spec fn buffer_view(name: Option<&[u8]>) -> Option<Seq<u8>> {
    match name {
        Some(buf) => Some(buf@),
        None => None,
    }
}

/// A buffer has at most one first NUL byte.
pub proof fn lemma_terminator_unique(buf: Seq<u8>, a: int, b: int)
    requires
        is_terminator(buf, a),
        is_terminator(buf, b),
    ensures
        a == b,
{
    if a < b {
        assert(buf[a] == 0);
    } else if b < a {
        assert(buf[b] == 0);
    }
}

/// A buffer has at most one name.
pub proof fn lemma_name_unique(buf: Seq<u8>, a: Seq<char>, b: Seq<char>)
    requires
        is_name_of(buf, a),
        is_name_of(buf, b),
    ensures
        a == b,
{
    let i = choose|at: int| is_terminator(buf, at) && a == utf8_lossy(buf.subrange(0, at));
    let j = choose|at: int| is_terminator(buf, at) && b == utf8_lossy(buf.subrange(0, at));
    lemma_terminator_unique(buf, i, j);
}

/// Finds the first NUL byte of `buf`.
pub fn find_terminator(buf: &[u8]) -> (found: Option<usize>)
    ensures
        match found {
            Some(at) => is_terminator(buf@, at as int),
            None => !is_terminated(buf@),
        },
{
    let mut at: usize = 0;
    while at < buf.len()
        invariant
            at <= buf.len(),
            forall|i: int| 0 <= i < at ==> buf@[i] != 0,
        decreases buf.len() - at,
    {
        if buf[at] == 0 {
            return Some(at);
        }
        at += 1;
    }
    assert(forall|k: int| !is_terminator(buf@, k));
    None
}

/// Reads the device name out of the buffer that the name query filled: the
/// bytes in front of the first NUL byte, decoded as UTF-8 with invalid
/// sequences replaced. A buffer without a NUL byte is rejected.
pub fn parse_name(buf: &[u8]) -> (parsed: Result<String, DescriptorError>)
    ensures
        match parsed {
            Ok(name) => is_name_of(buf@, name@),
            Err(e) => e == DescriptorError::NameNotTerminated && !is_terminated(buf@),
        },
{
    match find_terminator(buf) {
        Some(at) => {
            let name = decode_lossy(slice_subrange(buf, 0, at));
            Ok(name)
        },
        None => Err(DescriptorError::NameNotTerminated),
    }
}

/// Builds the descriptor from the outcomes of the three capability queries,
/// `None` standing for a query that failed. The first stage that failed is
/// reported; the name is read as [`parse_name`] reads it.
pub fn read_descriptor(axes: Option<u8>, buttons: Option<u8>, name: Option<&[u8]>) -> (read: Result<
    Descriptor,
    DescriptorError,
>)
    ensures
        read is Ok <==> failing_stage(axes, buttons, buffer_view(name)) is None,
        match read {
            Ok(d) => {
                &&& axes == Some(d.axes)
                &&& buttons == Some(d.buttons)
                &&& name matches Some(buf)
                &&& is_name_of(buf@, d.name@)
            },
            Err(e) => failing_stage(axes, buttons, buffer_view(name)) == Some(e),
        },
{
    let axes = match axes {
        Some(n) => n,
        None => { return Err(DescriptorError::AxisQueryFailed); },
    };
    let buttons = match buttons {
        Some(n) => n,
        None => { return Err(DescriptorError::ButtonQueryFailed); },
    };
    let buf = match name {
        Some(buf) => buf,
        None => { return Err(DescriptorError::NameQueryFailed); },
    };
    match parse_name(buf) {
        Ok(name) => Ok(Descriptor { axes, buttons, name }),
        Err(e) => Err(e),
    }
}

} // verus!

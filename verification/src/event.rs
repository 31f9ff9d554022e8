//! Joystick event records as they come off the device byte stream.
//!
//! The kernel hands out fixed records of eight bytes:
//! a 32-bit timestamp, a signed 16-bit value, a kind and an index, all
//! little-endian. Records are decoded field by field from the bytes.

use vstd::prelude::*;

verus! {

/// Number of bytes in one event record.
pub const RECORD_SIZE: usize = 8;

/// One decoded event record.
#[derive(Clone, Copy, Debug, PartialEq, Eq, Structural)]
pub struct RawEvent {
    /// Timestamp of the event in milliseconds.
    pub time: u32,
    /// Raw position of an axis or pressure of a button.
    pub value: i16,
    /// Event kind bits.
    pub kind: u8,
    /// Number of the axis or button that the event is about.
    pub index: u8,
}

/// The unsigned number whose little-endian bytes are `b0, b1, b2, b3`.
pub open spec fn le_u32(b0: u8, b1: u8, b2: u8, b3: u8) -> int {
    b0 as int + 0x100 * (b1 as int) + 0x1_0000 * (b2 as int) + 0x100_0000 * (b3 as int)
}

/// The two's complement number whose little-endian bytes are `lo, hi`.
pub open spec fn le_i16(lo: u8, hi: u8) -> int {
    if hi < 0x80 {
        lo as int + 0x100 * (hi as int)
    } else {
        lo as int + 0x100 * (hi as int) - 0x1_0000
    }
}

/// How many whole records a stream holds.
pub open spec fn record_count(stream: Seq<u8>) -> nat {
    stream.len() / 8
}

/// The record that starts at byte `8 * index` of `stream`.
pub open spec fn record_at(stream: Seq<u8>, index: int) -> RawEvent
    recommends
        0 <= index < record_count(stream),
{
    let at = 8 * index;
    RawEvent {
        time: le_u32(stream[at], stream[at + 1], stream[at + 2], stream[at + 3]) as u32,
        value: le_i16(stream[at + 4], stream[at + 5]) as i16,
        kind: stream[at + 6],
        index: stream[at + 7],
    }
}

/// The values of the `count` records of `stream` from record `first` on.
pub open spec fn values_from(stream: Seq<u8>, first: int, count: nat) -> Seq<i16> {
    Seq::new(count, |i: int| record_at(stream, first + i).value)
}

/// Every four bytes are a 32-bit number and every two a 16-bit number:
/// the fields of a record are what its bytes say, nothing is cut off.
pub proof fn lemma_record_fields(stream: Seq<u8>, index: int)
    ensures
        ({
            let at = 8 * index;
            let event = record_at(stream, index);
            &&& event.time == le_u32(stream[at], stream[at + 1], stream[at + 2], stream[at + 3])
            &&& event.value == le_i16(stream[at + 4], stream[at + 5])
        }),
{
}

impl RawEvent {
    /// Decodes record number `index` of `stream`; `None` when the stream ends
    /// before that record is complete.
    pub fn decode(stream: &[u8], index: usize) -> (event: Option<RawEvent>)
        ensures
            event == if index < record_count(stream@) {
                Some(record_at(stream@, index as int))
            } else {
                None
            },
    {
        if index >= stream.len() / RECORD_SIZE {
            return None;
        }
        let at: usize = index * RECORD_SIZE;
        let time: u32 = stream[at] as u32 + 0x100 * (stream[at + 1] as u32) + 0x1_0000 * (
        stream[at + 2] as u32) + 0x100_0000 * (stream[at + 3] as u32);
        let lo: u8 = stream[at + 4];
        let hi: u8 = stream[at + 5];
        let value: i16 = if hi < 0x80 {
            lo as i16 + 0x100 * (hi as i16)
        } else {
            (lo as i32 + 0x100 * (hi as i32) - 0x1_0000) as i16
        };
        Some(RawEvent { time, value, kind: stream[at + 6], index: stream[at + 7] })
    }
}

} // verus!

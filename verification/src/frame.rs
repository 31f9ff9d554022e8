//! Framing of the status documents on the wire.
//!
//! A frame is the length of its body in decimal digits, a `#`, and the body:
//! `11#hello world`. Nothing follows the body.

use vstd::prelude::*;
use vstd::slice::slice_subrange;

verus! {

/// The byte between the length and the body of a frame.
pub const SEPARATOR: u8 = 0x23;

/// The ASCII code of the digit zero.
pub const ZERO: u8 = 0x30;

/// `byte` is an ASCII digit.
pub open spec fn is_digit(byte: u8) -> bool {
    ZERO <= byte <= ZERO + 9
}

/// The decimal digits of `n` in ASCII, without leading zeros.
pub open spec fn decimal(n: nat) -> Seq<u8>
    decreases n,
{
    if n < 10 {
        seq![(ZERO + n) as u8]
    } else {
        decimal(n / 10).push((ZERO + n % 10) as u8)
    }
}

/// The number that a sequence of ASCII digits stands for.
pub open spec fn decimal_value(digits: Seq<u8>) -> nat
    decreases digits.len(),
{
    if digits.len() == 0 {
        0
    } else {
        (10 * decimal_value(digits.drop_last()) + (digits.last() - ZERO)) as nat
    }
}

/// `digits` is a number written in ASCII digits without leading zeros.
pub open spec fn is_decimal(digits: Seq<u8>) -> bool {
    &&& digits.len() > 0
    &&& forall|i: int| 0 <= i < digits.len() ==> is_digit(#[trigger] digits[i])
    &&& digits.len() > 1 ==> digits[0] != ZERO
}

/// The frame around `body`.
pub open spec fn frame_of(body: Seq<u8>) -> Seq<u8> {
    decimal(body.len()) + seq![SEPARATOR] + body
}

/// `frame` is the frame around some body.
pub open spec fn is_frame(frame: Seq<u8>) -> bool {
    exists|body: Seq<u8>| frame == frame_of(body)
}

/// The body that `frame` is the frame around, if it is a frame.
pub open spec fn body_of(frame: Seq<u8>) -> Option<Seq<u8>> {
    if is_frame(frame) {
        Some(choose|body: Seq<u8>| frame == frame_of(body))
    } else {
        None
    }
}

/// The digits of a number are digits without leading zeros, and stand for
/// that number.
pub proof fn lemma_decimal_value(n: nat)
    ensures
        is_decimal(decimal(n)),
        decimal_value(decimal(n)) == n,
        n > 0 ==> decimal(n)[0] != ZERO,
    decreases n,
{
    if n < 10 {
        assert(decimal_value(decimal(n).drop_last()) == 0);
    } else {
        lemma_decimal_value(n / 10);
        assert(decimal(n).drop_last() =~= decimal(n / 10));
    }
}

/// Digits without leading zeros are the digits of the number they stand for.
pub proof fn lemma_decimal_unique(digits: Seq<u8>)
    requires
        is_decimal(digits),
    ensures
        decimal(decimal_value(digits)) == digits,
        digits[0] != ZERO ==> decimal_value(digits) > 0,
    decreases digits.len(),
{
    let head = digits.drop_last();
    if digits.len() == 1 {
        assert(decimal_value(head) == 0);
    } else {
        assert(is_decimal(head));
        lemma_decimal_unique(head);
        assert(decimal_value(digits) / 10 == decimal_value(head));
    }
    assert(decimal(decimal_value(digits)) =~= digits);
}

/// A number's front digits stand for no more than the number.
pub proof fn lemma_decimal_value_prefix(digits: Seq<u8>, k: int)
    requires
        0 <= k <= digits.len(),
        forall|i: int| 0 <= i < digits.len() ==> is_digit(#[trigger] digits[i]),
    ensures
        decimal_value(digits.subrange(0, k)) <= decimal_value(digits),
    decreases digits.len() - k,
{
    if k == digits.len() {
        assert(digits.subrange(0, k) =~= digits);
    } else {
        lemma_decimal_value_prefix(digits, k + 1);
        assert(digits.subrange(0, k + 1).drop_last() =~= digits.subrange(0, k));
    }
}

/// The length prefix of a frame is right. A frame starts with digits, which
/// stand for the exact number of bytes in the body; the first byte that is
/// no digit is the separator; the body follows it and ends the frame.
pub proof fn lemma_length_prefix(body: Seq<u8>)
    ensures
        ({
            let frame = frame_of(body);
            let width = decimal(body.len()).len() as int;
            &&& width > 0
            &&& frame.len() == width + 1 + body.len()
            &&& frame.subrange(0, width) == decimal(body.len())
            &&& decimal_value(frame.subrange(0, width)) == body.len()
            &&& forall|i: int| 0 <= i < width ==> is_digit(#[trigger] frame[i])
            &&& frame[width] == SEPARATOR
            &&& frame.subrange(width + 1, frame.len() as int) == body
        }),
{
    lemma_decimal_value(body.len());
    let frame = frame_of(body);
    let digits = decimal(body.len());
    let width = digits.len() as int;
    assert(frame.subrange(0, width) =~= digits);
    assert(frame.subrange(width + 1, frame.len() as int) =~= body);
    assert forall|i: int| 0 <= i < width implies is_digit(#[trigger] frame[i]) by {
        assert(frame[i] == digits[i]);
    }
}

/// What a reader knows of a frame after it has seen `at` digits and no
/// separator: the digits belong to the length, which is no smaller than what
/// they stand for; and a separator that comes next ends the length.
pub proof fn lemma_frame_front(body: Seq<u8>, at: int)
    requires
        0 <= at <= frame_of(body).len(),
        forall|i: int| 0 <= i < at ==> is_digit(#[trigger] frame_of(body)[i]),
    ensures
        at <= decimal(body.len()).len() < frame_of(body).len(),
        decimal_value(frame_of(body).subrange(0, at)) <= body.len(),
        at == decimal(body.len()).len() ==> {
            &&& frame_of(body).subrange(0, at) == decimal(body.len())
            &&& frame_of(body)[at] == SEPARATOR
            &&& frame_of(body).len() == at + 1 + body.len()
        },
        at < decimal(body.len()).len() ==> is_digit(frame_of(body)[at]),
{
    lemma_length_prefix(body);
    lemma_decimal_value(body.len());
    let frame = frame_of(body);
    let digits = decimal(body.len());
    // The separator is no digit, so the digits seen end at or before it.
    assert(!is_digit(frame[digits.len() as int]));
    assert(frame.subrange(0, at) =~= digits.subrange(0, at));
    lemma_decimal_value_prefix(digits, at);
}

/// Two bodies with the same frame are the same body.
pub proof fn lemma_frame_injective(body: Seq<u8>, other: Seq<u8>)
    requires
        frame_of(body) == frame_of(other),
    ensures
        body == other,
{
    lemma_length_prefix(body);
    lemma_length_prefix(other);
    lemma_frame_front(other, decimal(body.len()).len() as int);
    lemma_frame_front(body, decimal(other.len()).len() as int);
}

/// Framing round trip: the frame around a body is a frame, and the body it
/// carries is that body.
pub proof fn lemma_round_trip(body: Seq<u8>)
    ensures
        is_frame(frame_of(body)),
        body_of(frame_of(body)) == Some(body),
{
    let frame = frame_of(body);
    let found = choose|b: Seq<u8>| frame == frame_of(b);
    lemma_frame_injective(body, found);
}

/// Appends the decimal digits of `n` to `out`.
pub fn write_decimal(n: usize, out: &mut Vec<u8>)
    ensures
        final(out)@ == old(out)@ + decimal(n as nat),
    decreases n,
{
    if n >= 10 {
        write_decimal(n / 10, out);
    }
    let digit: u8 = ZERO + (n % 10) as u8;
    out.push(digit);
}

/// Wraps `body` in a frame: the length of the body in decimal, the
/// separator, the body.
pub fn encode(body: &[u8]) -> (frame: Vec<u8>)
    ensures
        frame@ == frame_of(body@),
{
    let mut frame: Vec<u8> = Vec::new();
    write_decimal(body.len(), &mut frame);
    frame.push(SEPARATOR);
    frame.extend_from_slice(body);
    frame
}

/// Takes the body out of a frame. `None` when `frame` is not the frame
/// around any body: when the length is missing, is not written in digits
/// without leading zeros, is not followed by the separator, or is not the
/// number of bytes that follow the separator.
pub fn decode(frame: &[u8]) -> (body: Option<&[u8]>)
    ensures
        match body {
            Some(body) => frame@ == frame_of(body@) && body_of(frame@) == Some(body@),
            None => !is_frame(frame@) && body_of(frame@) is None,
        },
{
    let mut at: usize = 0;
    let mut length: usize = 0;
    while at < frame.len() && frame[at] != SEPARATOR
        invariant
            at <= frame.len(),
            forall|i: int| 0 <= i < at ==> is_digit(#[trigger] frame@[i]),
            length == decimal_value(frame@.subrange(0, at as int)),
        decreases frame.len() - at,
    {
        let byte: u8 = frame[at];
        if byte < ZERO || byte > ZERO + 9 {
            assert forall|b: Seq<u8>| frame@ != frame_of(b) by {
                if frame@ == frame_of(b) {
                    lemma_frame_front(b, at as int);
                }
            }
            return None;
        }
        assert(frame@.subrange(0, at + 1).drop_last() =~= frame@.subrange(0, at as int));
        let next = match length.checked_mul(10) {
            Some(tens) => tens.checked_add((byte - ZERO) as usize),
            None => None,
        };
        match next {
            Some(next) => {
                length = next;
            },
            None => {
                assert forall|b: Seq<u8>| frame@ != frame_of(b) by {
                    if frame@ == frame_of(b) {
                        lemma_frame_front(b, at + 1);
                    }
                }
                return None;
            },
        }
        at += 1;
    }
    if at == frame.len() || at == 0 || (at > 1 && frame[0] == ZERO) || length != frame.len() - at
        - 1 {
        assert forall|b: Seq<u8>| frame@ != frame_of(b) by {
            if frame@ == frame_of(b) {
                lemma_frame_front(b, at as int);
                lemma_decimal_value(b.len());
            }
        }
        return None;
    }
    let body = slice_subrange(frame, at + 1, frame.len());
    proof {
        lemma_decimal_unique(frame@.subrange(0, at as int));
        assert(frame@ =~= frame_of(body@));
        lemma_round_trip(body@);
    }
    Some(body)
}

} // verus!

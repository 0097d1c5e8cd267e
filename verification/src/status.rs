use vstd::prelude::*;

use crate::error::Error;

verus! {

/// The status of one output channel.
///
/// A code-based status carries the 7-bit magnitude code written to the
/// channel's register; a current-based status carries a physical current in
/// micro-amperes. The codec never looks inside a current value, so its
/// representation `C` is left to the caller (see [`crate::Current`]).
#[derive(Debug, Clone, Copy, PartialEq)]
pub enum Status<C> {
    /// The output is completely disabled.
    Disable,
    /// The output sinks at the given code.
    Sink(u8),
    /// The output sinks at the given current value.
    SinkMicroAmp(C),
    /// The output sources at the given code.
    Source(u8),
    /// The output sources at the given current value.
    SourceMicroAmp(C),
}

impl<C> Status<C> {
    /// The magnitude code of a code-based status: `Disable` counts as code 0;
    /// a current-based status has no code until it is resolved against a
    /// resistor value.
    pub open spec fn spec_code(self) -> Option<u8> {
        match self {
            Status::Disable => Some(0u8),
            Status::Sink(c) => Some(c),
            Status::Source(c) => Some(c),
            Status::SinkMicroAmp(_) => None,
            Status::SourceMicroAmp(_) => None,
        }
    }

    /// Whether the status is code-based (`Disable` included).
    pub open spec fn is_code_based(self) -> bool {
        self.spec_code() is Some
    }

    /// Returns the magnitude code for a code-based status and `None` for a
    /// current-based one.
    pub fn code(&self) -> (r: Option<u8>)
        ensures
            r == self.spec_code(),
    {
        match self {
            Status::Sink(c) => Some(*c),
            Status::Source(c) => Some(*c),
            Status::Disable => Some(0),
            Status::SinkMicroAmp(_) => None,
            Status::SourceMicroAmp(_) => None,
        }
    }
}

/// The status a raw register byte stands for: bit 7 is the direction
/// (1 = source), bits 0-6 are the magnitude code, and a zero magnitude means
/// `Disable` whatever the direction bit says.
pub open spec fn spec_decode<C>(value: u8) -> Status<C> {
    if value & 0x7f == 0 {
        Status::Disable
    } else if value & 0x80 == 0x80 {
        Status::Source(value & 0x7f)
    } else {
        Status::Sink(value & 0x7f)
    }
}

/// Whether a status can be encoded into a raw register byte: it must be
/// code-based and its code must fit in the 7 magnitude bits.
pub open spec fn encode_ok<C>(status: Status<C>) -> bool {
    match status {
        Status::Disable => true,
        Status::Sink(c) => c <= 127,
        Status::Source(c) => c <= 127,
        Status::SinkMicroAmp(_) => false,
        Status::SourceMicroAmp(_) => false,
    }
}

/// The raw register byte of an encodable status. `Disable`, `Sink(0)` and
/// `Source(0)` all map to 0x00.
pub open spec fn spec_encode<C>(status: Status<C>) -> u8
    recommends
        encode_ok(status),
{
    match status {
        Status::Disable => 0u8,
        Status::Sink(c) => c,
        Status::Source(c) => if c == 0 {
            0u8
        } else {
            c | 0x80
        },
        Status::SinkMicroAmp(_) => 0u8,
        Status::SourceMicroAmp(_) => 0u8,
    }
}

/// Decodes a raw register byte into a status.
pub fn decode<C>(value: u8) -> (r: Status<C>)
    ensures
        r == spec_decode::<C>(value),
{
    let sourcing: bool = value & 0x80 == 0x80;
    let code: u8 = value & 0x7f;
    if code == 0 {
        Status::Disable
    } else if sourcing {
        Status::Source(code)
    } else {
        Status::Sink(code)
    }
}

/// Encodes a code-based status into its raw register byte, rejecting a code
/// above 127 with `InvalidCode`.
pub fn encode<C, E>(status: &Status<C>) -> (r: Result<u8, Error<E>>)
    requires
        status.is_code_based(),
    ensures
        r is Ok <==> encode_ok(*status),
        encode_ok(*status) ==> r == Ok::<u8, Error<E>>(spec_encode(*status)),
        (match *status {
            Status::Sink(c) => c > 127 ==> r == Err::<u8, Error<E>>(Error::InvalidCode(c)),
            Status::Source(c) => c > 127 ==> r == Err::<u8, Error<E>>(Error::InvalidCode(c)),
            _ => true,
        }),
{
    match status {
        Status::Disable => Ok(0),
        Status::Sink(c) => {
            if *c > 127 {
                Err(Error::InvalidCode(*c))
            } else {
                Ok(*c)
            }
        }
        Status::Source(c) => {
            if *c > 127 {
                Err(Error::InvalidCode(*c))
            } else if *c == 0 {
                Ok(0)
            } else {
                Ok(*c | 0x80)
            }
        }
        Status::SinkMicroAmp(_) => unreached(),
        Status::SourceMicroAmp(_) => unreached(),
    }
}

/// Encoding a code-based status and decoding the byte it produced gives the
/// status back, except that every zero-magnitude status collapses to
/// `Disable`.
pub proof fn lemma_encode_then_decode<C>(status: Status<C>)
    requires
        encode_ok(status),
    ensures
        spec_decode::<C>(spec_encode(status)) == (if status.spec_code() == Some(0u8) {
            Status::<C>::Disable
        } else {
            status
        }),
{
    match status {
        Status::Disable => {
            assert(0u8 & 0x7f == 0) by (bit_vector);
        }
        Status::Sink(c) => {
            assert(c <= 127 ==> c & 0x7f == c && c & 0x80 != 0x80) by (bit_vector);
        }
        Status::Source(c) => {
            if c == 0 {
                assert(0u8 & 0x7f == 0) by (bit_vector);
            } else {
                assert(c <= 127 && c != 0 ==> (c | 0x80) & 0x7f == c && (c | 0x80) & 0x80 == 0x80)
                    by (bit_vector);
            }
        }
        Status::SinkMicroAmp(_) => {}
        Status::SourceMicroAmp(_) => {}
    }
}

/// Decoding a raw byte and re-encoding the result gives the byte back
/// whenever its magnitude is nonzero; the two zero-magnitude bytes (0x00 and
/// 0x80) both re-encode to 0x00.
pub proof fn lemma_decode_then_encode<C>(value: u8)
    ensures
        encode_ok(spec_decode::<C>(value)),
        value & 0x7f != 0 ==> spec_encode(spec_decode::<C>(value)) == value,
        value & 0x7f == 0 ==> spec_encode(spec_decode::<C>(value)) == 0u8,
{
    assert(value & 0x7f <= 127) by (bit_vector);
    if value & 0x7f != 0 {
        if value & 0x80 == 0x80 {
            assert(value & 0x80 == 0x80 ==> ((value & 0x7f) | 0x80) == value) by (bit_vector);
        } else {
            assert(value & 0x80 != 0x80 ==> (value & 0x7f) == value) by (bit_vector);
        }
    }
}

} // verus!

use vstd::prelude::*;

use crate::status::Status;

verus! {

/// A physical current in micro-amperes, as far as the driver needs one: a
/// value that a magnitude code can be computed from against a scaling
/// resistor, and that can be produced back from a code.
///
/// The device relates the two by current = K * code / rfs_ohm, with K its
/// fixed full-scale constant; the arithmetic runs through machine reals,
/// which this crate does not hold, so the two conversions carry no contract
/// here. The session treats every code a conversion produces as untrusted
/// and re-validates it against the 7-bit bound before touching the bus.
pub trait Current: Sized {
    /// The current that `code` stands for against the resistor value.
    fn from_code(code: u8, rfs_ohm: u32) -> Self
        requires
            code <= 127,
            rfs_ohm > 0,
    ;

    /// The magnitude code for this current against the resistor value,
    /// truncated toward zero; the result is not bounds-checked.
    fn to_code(&self, rfs_ohm: u32) -> u8
        requires
            rfs_ohm > 0,
    ;
}

/// Resolves a decoded, code-based status against a channel's resistor value:
/// sink and source codes become current-based readings, everything else
/// passes through unchanged.
pub fn resolve<C: Current>(status: Status<C>, rfs_ohm: u32) -> (r: Status<C>)
    requires
        rfs_ohm > 0,
        (match status {
            Status::Sink(c) => c <= 127,
            Status::Source(c) => c <= 127,
            _ => true,
        }),
    ensures
        (match status {
            Status::Sink(_) => r is SinkMicroAmp,
            Status::Source(_) => r is SourceMicroAmp,
            _ => r == status,
        }),
{
    match status {
        Status::Sink(code) => Status::SinkMicroAmp(C::from_code(code, rfs_ohm)),
        Status::Source(code) => Status::SourceMicroAmp(C::from_code(code, rfs_ohm)),
        other => other,
    }
}

} // verus!

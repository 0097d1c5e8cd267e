use vstd::prelude::*;

verus! {

/// Errors reported by the driver.
///
/// `E` is the bus transport's own error type; the driver never interprets it
/// and hands it back to the caller verbatim.
#[derive(Debug, Clone, PartialEq, Eq)]
pub enum Error<E> {
    /// A bus transaction failed with the transport's own error.
    I2c(E),
    /// A magnitude code above 127 was supplied; bit 7 of the register is
    /// reserved for the direction.
    InvalidCode(u8),
    /// A resistor value outside the range accepted by the validation policy
    /// was supplied.
    InvalidRfs,
    /// A current-based operation was requested on a channel that has no
    /// configured resistor value.
    UnknownRfs,
}

} // verus!

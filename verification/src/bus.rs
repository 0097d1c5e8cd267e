use vstd::prelude::*;

verus! {

/// The device's fixed 7-bit peripheral address, set by its hardware
/// strapping.
pub const SLAVE_ADDRESS: u8 = 0x48;

/// One completed bus transaction, as the session's contracts model it.
pub enum Transaction {
    /// A plain write of `data` to the peripheral at `address`.
    Write { address: u8, data: Seq<u8> },
    /// A write of `data` to the peripheral at `address`, followed by a
    /// one-byte read that came back as `response`.
    WriteRead { address: u8, data: Seq<u8>, response: u8 },
}

/// The two-wire bus port the driver talks through: one plain write and one
/// write-then-read, each a single atomic transaction addressed to a fixed
/// peripheral.
///
/// The contracts model an implementation by the transactions it has
/// completed, oldest first: a successful call appends exactly the one
/// transaction it performed, a failed call completes nothing. Implementations
/// are supplied by transport code outside this crate and are not themselves
/// verified; everything proved about the session holds of transports that
/// keep this contract. [`crate::MockI2c`] is an implementation within the
/// crate that is verified against it.
pub trait I2cBus {
    /// The transport's own error type; the driver passes it through
    /// uninterpreted.
    type Error;

    /// The completed transactions, oldest first. Implementations that keep
    /// no model of their own may leave the default, which stands for a
    /// transport whose log is not tracked.
    open spec fn history(&self) -> Seq<Transaction> {
        Seq::empty()
    }

    /// Writes exactly two bytes to the peripheral at `address`.
    fn write(&mut self, address: u8, data: &[u8; 2]) -> (r: Result<(), Self::Error>)
        ensures
            r is Ok ==> final(self).history() == old(self).history().push(
                (Transaction::Write { address, data: data@ }),
            ),
            r is Err ==> final(self).history() == old(self).history(),
    ;

    /// Writes exactly one byte to the peripheral at `address`, then reads a
    /// single byte back.
    fn write_read(&mut self, address: u8, data: &[u8; 1]) -> (r: Result<u8, Self::Error>)
        ensures
            (match r {
                Ok(response) => final(self).history() == old(self).history().push(
                    (Transaction::WriteRead { address, data: data@, response }),
                ),
                Err(_) => final(self).history() == old(self).history(),
            }),
    ;
}

} // verus!

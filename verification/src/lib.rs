//! Driver core for the DS4432, a dual-channel programmable current DAC on a
//! two-wire serial bus.
//!
//! Each of the two outputs has a single 8-bit register: bit 7 selects the
//! direction (sink or source), bits 0-6 hold the magnitude code. An optional
//! external scaling resistor per channel relates a code to a physical current
//! in micro-amperes.
//!
//! The crate provides the register codec ([`decode`], [`encode`],
//! [`Status`]), the per-channel resistor validation ([`validate_rfs`]) and
//! the device session ([`AsyncDS4432`]), which issues its transactions
//! through the [`I2cBus`] port. A scripted bus ([`MockI2c`]) is included for
//! exercising the session without hardware.

mod bus;
mod convert;
mod device;
mod error;
mod mock;
mod status;
mod validate;

pub use bus::{I2cBus, Transaction, SLAVE_ADDRESS};
pub use convert::{resolve, Current};
pub use device::{
    code_write_outcome, current_write_outcome, direction_byte, read_transaction, reported_status,
    write_transaction, AsyncDS4432, Output,
};
pub use error::Error;
pub use mock::{BusRecord, MockI2c, OutOfResponses};
pub use status::{
    decode, encode, encode_ok, lemma_decode_then_encode, lemma_encode_then_decode, spec_decode,
    spec_encode, Status,
};
pub use validate::{
    rfs_opt_valid, rfs_valid, validate_rfs, RfsPolicy, RECOMMENDED_RFS_MAX, RECOMMENDED_RFS_MIN,
};

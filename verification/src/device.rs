use vstd::prelude::*;

use crate::bus::{I2cBus, Transaction, SLAVE_ADDRESS};
use crate::convert::{resolve, Current};
use crate::error::Error;
use crate::status::{decode, spec_decode, spec_encode, Status};
use crate::validate::{rfs_opt_valid, validate_rfs, RfsPolicy};

verus! {

/// An output channel of the device; each maps to a fixed register address.
#[derive(Debug, Clone, Copy)]
pub enum Output {
    /// Output 0, whose register sits at address 0xF8.
    Zero,
    /// Output 1, whose register sits at address 0xF9.
    One,
}

impl Output {
    /// The register address of this output.
    pub open spec fn spec_address(self) -> u8 {
        match self {
            Output::Zero => 0xf8u8,
            Output::One => 0xf9u8,
        }
    }

    /// Returns the register address of this output.
    pub fn address(self) -> (r: u8)
        ensures
            r == self.spec_address(),
    {
        match self {
            Output::Zero => 0xf8,
            Output::One => 0xf9,
        }
    }
}

/// The write transaction that sets the register of `output` to `value`.
pub open spec fn write_transaction(output: Output, value: u8) -> Transaction {
    Transaction::Write { address: SLAVE_ADDRESS, data: seq![output.spec_address(), value] }
}

/// The write-read transaction that reads the register of `output` back as
/// `response`.
pub open spec fn read_transaction(output: Output, response: u8) -> Transaction {
    Transaction::WriteRead {
        address: SLAVE_ADDRESS,
        data: seq![output.spec_address()],
        response,
    }
}

/// The raw register byte that carries `code` with the given direction,
/// routed through the codec: a zero code encodes as the disabled byte 0x00.
pub open spec fn direction_byte(sourcing: bool, code: u8) -> u8 {
    if sourcing {
        spec_encode::<()>(Status::Source(code))
    } else {
        spec_encode::<()>(Status::Sink(code))
    }
}

/// The outcome `set_status` promises once the byte to write is fixed: on
/// success exactly the one write of `value` to the register of `output` was
/// completed; on failure the error is the bus's own and nothing was
/// completed.
pub open spec fn code_write_outcome<E>(
    pre: Seq<Transaction>,
    post: Seq<Transaction>,
    output: Output,
    value: u8,
    r: Result<(), Error<E>>,
) -> bool {
    match r {
        Ok(_) => post == pre.push(write_transaction(output, value)),
        Err(e) => post == pre && e matches Error::I2c(_),
    }
}

/// The outcome `set_status` promises for a current-based request on a
/// channel with a configured resistor value: the conversion yields some
/// code; a code above 127 is rejected as `InvalidCode` before the bus is
/// touched, and otherwise the byte written carries that code with the
/// requested direction.
pub open spec fn current_write_outcome<E>(
    pre: Seq<Transaction>,
    post: Seq<Transaction>,
    output: Output,
    sourcing: bool,
    r: Result<(), Error<E>>,
) -> bool {
    match r {
        Ok(_) => exists|code: u8|
            code <= 127 && post == pre.push(
                #[trigger] write_transaction(output, direction_byte(sourcing, code)),
            ),
        Err(e) => post == pre && (e matches Error::I2c(_) || (e matches Error::InvalidCode(c)
            && c > 127)),
    }
}

/// Whether `st` is the status reported for the raw byte `response` on a
/// channel with resistor configuration `rfs`: the decoded status, resolved
/// into a current-based reading when a resistor value is configured.
pub open spec fn reported_status<C>(response: u8, rfs: Option<u32>, st: Status<C>) -> bool {
    match rfs {
        None => st == spec_decode::<C>(response),
        Some(_) => match spec_decode::<C>(response) {
            Status::Sink(_) => st is SinkMicroAmp,
            Status::Source(_) => st is SourceMicroAmp,
            decoded => st == decoded,
        },
    }
}

/// A session with a DS4432 on the bus `I`.
///
/// The session owns the bus handle exclusively and holds the two optional
/// per-channel scaling resistor values, fixed and validated at construction.
pub struct AsyncDS4432<I> {
    i2c: I,
    rfs0_ohm: Option<u32>,
    rfs1_ohm: Option<u32>,
}

impl<I: I2cBus> AsyncDS4432<I> {
    /// The bus handle the session owns.
    pub closed spec fn spec_bus(self) -> I {
        self.i2c
    }

    /// The resistor value configured for `output`, in ohms.
    pub closed spec fn spec_rfs(self, output: Output) -> Option<u32> {
        match output {
            Output::Zero => self.rfs0_ohm,
            Output::One => self.rfs1_ohm,
        }
    }

    /// The transactions the session's bus has completed, oldest first.
    pub open spec fn history(self) -> Seq<Transaction> {
        self.spec_bus().history()
    }

    /// Every configured resistor value is nonzero: the constructors validate
    /// them, so current conversions never see a zero resistor.
    pub closed spec fn wf(self) -> bool {
        &&& (self.rfs0_ohm matches Some(v) ==> v > 0)
        &&& (self.rfs1_ohm matches Some(v) ==> v > 0)
    }

    /// Creates a session with no configured resistor values; the outputs can
    /// then be driven by code only.
    pub fn new(i2c: I) -> (r: Self)
        ensures
            r.wf(),
            r.spec_rfs(Output::Zero) is None,
            r.spec_rfs(Output::One) is None,
            r.history() == i2c.history(),
    {
        AsyncDS4432 { i2c, rfs0_ohm: None, rfs1_ohm: None }
    }

    /// Creates a session with the given optional per-channel resistor
    /// values, validated against the manufacturer-recommended range.
    pub fn with_rfs(i2c: I, rfs0_ohm: Option<u32>, rfs1_ohm: Option<u32>) -> (r: Result<
        Self,
        Error<I::Error>,
    >)
        ensures
            r is Ok <==> rfs_opt_valid(RfsPolicy::Recommended, rfs0_ohm) && rfs_opt_valid(
                RfsPolicy::Recommended,
                rfs1_ohm,
            ),
            (match r {
                Ok(s) => s.wf() && s.spec_rfs(Output::Zero) == rfs0_ohm && s.spec_rfs(Output::One)
                    == rfs1_ohm && s.history() == i2c.history(),
                Err(e) => e == Error::<I::Error>::InvalidRfs,
            }),
    {
        Self::with_rfs_policy(i2c, rfs0_ohm, rfs1_ohm, RfsPolicy::Recommended)
    }

    /// Creates a session with the given optional per-channel resistor
    /// values, validated against the chosen policy. Construction fails with
    /// `InvalidRfs` as soon as either channel's value is unacceptable.
    pub fn with_rfs_policy(
        i2c: I,
        rfs0_ohm: Option<u32>,
        rfs1_ohm: Option<u32>,
        policy: RfsPolicy,
    ) -> (r: Result<Self, Error<I::Error>>)
        ensures
            r is Ok <==> rfs_opt_valid(policy, rfs0_ohm) && rfs_opt_valid(policy, rfs1_ohm),
            (match r {
                Ok(s) => s.wf() && s.spec_rfs(Output::Zero) == rfs0_ohm && s.spec_rfs(Output::One)
                    == rfs1_ohm && s.history() == i2c.history(),
                Err(e) => e == Error::<I::Error>::InvalidRfs,
            }),
    {
        match validate_rfs::<I::Error>(policy, rfs0_ohm) {
            Ok(_) => (),
            Err(e) => {
                return Err(e);
            }
        }
        match validate_rfs::<I::Error>(policy, rfs1_ohm) {
            Ok(_) => (),
            Err(e) => {
                return Err(e);
            }
        }
        Ok(AsyncDS4432 { i2c, rfs0_ohm, rfs1_ohm })
    }

    /// Returns the resistor value configured for `output`, in ohms.
    pub fn rfs(&self, output: Output) -> (r: Option<u32>)
        ensures
            r == self.spec_rfs(output),
    {
        match output {
            Output::Zero => self.rfs0_ohm,
            Output::One => self.rfs1_ohm,
        }
    }

    /// Sets the sink/source status of an output.
    ///
    /// A code-based request is encoded by the codec, rejecting a code above
    /// 127 with `InvalidCode`. A current-based request is converted against
    /// the channel's resistor value, failing with `UnknownRfs` when none is
    /// configured and with `InvalidCode` when the conversion yields a code
    /// above 127. Every such failure leaves the bus untouched; otherwise
    /// exactly one write transaction is issued, and a bus error is passed
    /// back verbatim.
    pub fn set_status<C: Current>(&mut self, output: Output, status: Status<C>) -> (r: Result<
        (),
        Error<I::Error>,
    >)
        requires
            old(self).wf(),
        ensures
            final(self).wf(),
            final(self).spec_rfs(Output::Zero) == old(self).spec_rfs(Output::Zero),
            final(self).spec_rfs(Output::One) == old(self).spec_rfs(Output::One),
            (match status {
                Status::Disable => code_write_outcome(
                    old(self).history(),
                    final(self).history(),
                    output,
                    spec_encode::<C>(Status::Disable),
                    r,
                ),
                Status::Sink(c) => if c > 127 {
                    r == Err::<(), Error<I::Error>>(Error::InvalidCode(c)) && final(self).history()
                        == old(self).history()
                } else {
                    code_write_outcome(
                        old(self).history(),
                        final(self).history(),
                        output,
                        spec_encode::<C>(Status::Sink(c)),
                        r,
                    )
                },
                Status::Source(c) => if c > 127 {
                    r == Err::<(), Error<I::Error>>(Error::InvalidCode(c)) && final(self).history()
                        == old(self).history()
                } else {
                    code_write_outcome(
                        old(self).history(),
                        final(self).history(),
                        output,
                        spec_encode::<C>(Status::Source(c)),
                        r,
                    )
                },
                Status::SinkMicroAmp(_) => (match old(self).spec_rfs(output) {
                    None => r == Err::<(), Error<I::Error>>(Error::UnknownRfs)
                        && final(self).history() == old(self).history(),
                    Some(_) => current_write_outcome(
                        old(self).history(),
                        final(self).history(),
                        output,
                        false,
                        r,
                    ),
                }),
                Status::SourceMicroAmp(_) => (match old(self).spec_rfs(output) {
                    None => r == Err::<(), Error<I::Error>>(Error::UnknownRfs)
                        && final(self).history() == old(self).history(),
                    Some(_) => current_write_outcome(
                        old(self).history(),
                        final(self).history(),
                        output,
                        true,
                        r,
                    ),
                }),
            }),
    {
        let reg: u8 = output.address();
        let ghost mut conv_code: u8 = 0u8;
        let value: u8 = match status {
            Status::Disable => 0,
            Status::Sink(code) => {
                if code > 127 {
                    return Err(Error::InvalidCode(code));
                }
                code
            }
            Status::Source(code) => {
                if code > 127 {
                    return Err(Error::InvalidCode(code));
                }
                if code == 0 {
                    0
                } else {
                    code | 0x80
                }
            }
            Status::SinkMicroAmp(current) => {
                let rfs: u32 = match self.rfs(output) {
                    Some(v) => v,
                    None => {
                        return Err(Error::UnknownRfs);
                    }
                };
                let code: u8 = current.to_code(rfs);
                if code > 127 {
                    return Err(Error::InvalidCode(code));
                }
                proof {
                    conv_code = code;
                }
                code
            }
            Status::SourceMicroAmp(current) => {
                let rfs: u32 = match self.rfs(output) {
                    Some(v) => v,
                    None => {
                        return Err(Error::UnknownRfs);
                    }
                };
                let code: u8 = current.to_code(rfs);
                if code > 127 {
                    return Err(Error::InvalidCode(code));
                }
                proof {
                    conv_code = code;
                }
                if code == 0 {
                    0
                } else {
                    code | 0x80
                }
            }
        };
        let payload: [u8; 2] = [reg, value];
        let result = self.i2c.write(SLAVE_ADDRESS, &payload);
        proof {
            assert(payload@ =~= seq![reg, value]);
        }
        match result {
            Ok(_) => {
                proof {
                    if status is SinkMicroAmp {
                        assert(conv_code <= 127 && self.history() == old(self).history().push(
                            write_transaction(output, direction_byte(false, conv_code)),
                        ));
                    }
                    if status is SourceMicroAmp {
                        assert(conv_code <= 127 && self.history() == old(self).history().push(
                            write_transaction(output, direction_byte(true, conv_code)),
                        ));
                    }
                }
                Ok(())
            }
            Err(e) => Err(Error::I2c(e)),
        }
    }

    /// Reads the sink/source status of an output.
    ///
    /// Exactly one write-read transaction is issued; the byte read back is
    /// decoded, and resolved into a current-based reading when the channel
    /// has a configured resistor value. A bus error is passed back verbatim
    /// and completes nothing.
    pub fn status<C: Current>(&mut self, output: Output) -> (r: Result<
        Status<C>,
        Error<I::Error>,
    >)
        requires
            old(self).wf(),
        ensures
            final(self).wf(),
            final(self).spec_rfs(Output::Zero) == old(self).spec_rfs(Output::Zero),
            final(self).spec_rfs(Output::One) == old(self).spec_rfs(Output::One),
            (match r {
                Ok(st) => exists|response: u8|
                    #[trigger] reported_status::<C>(response, old(self).spec_rfs(output), st)
                        && final(self).history() == old(self).history().push(
                        read_transaction(output, response),
                    ),
                Err(e) => e matches Error::I2c(_) && final(self).history() == old(self).history(),
            }),
    {
        let reg: u8 = output.address();
        let payload: [u8; 1] = [reg];
        let response: u8 = match self.i2c.write_read(SLAVE_ADDRESS, &payload) {
            Ok(b) => b,
            Err(e) => {
                return Err(Error::I2c(e));
            }
        };
        proof {
            assert(payload@ =~= seq![reg]);
            assert(response & 0x7f <= 127) by (bit_vector);
        }
        let decoded: Status<C> = decode(response);
        let st: Status<C> = match self.rfs(output) {
            Some(rfs) => resolve(decoded, rfs),
            None => decoded,
        };
        proof {
            assert(reported_status::<C>(response, old(self).spec_rfs(output), st));
        }
        Ok(st)
    }

    /// Consumes the session and returns the bus handle to the caller.
    pub fn release(self) -> (r: I)
        ensures
            r == self.spec_bus(),
    {
        self.i2c
    }

    /// Consumes the session, handing it back to be dropped by the caller.
    pub fn destroy(self) -> (r: Self)
        ensures
            r == self,
    {
        self
    }
}

} // verus!

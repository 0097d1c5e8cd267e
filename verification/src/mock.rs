use vstd::prelude::*;

use crate::bus::{I2cBus, Transaction};

verus! {

/// The record a [`MockI2c`] keeps of one completed transaction.
#[derive(Debug, Clone, Copy, PartialEq, Eq)]
pub enum BusRecord {
    /// A two-byte write.
    Write { address: u8, data: [u8; 2] },
    /// A one-byte write followed by a one-byte read answered with `response`.
    WriteRead { address: u8, register: u8, response: u8 },
}

impl View for BusRecord {
    type V = Transaction;

    open spec fn view(&self) -> Transaction {
        match *self {
            BusRecord::Write { address, data } => Transaction::Write { address, data: data@ },
            BusRecord::WriteRead { address, register, response } => Transaction::WriteRead {
                address,
                data: seq![register],
                response,
            },
        }
    }
}

/// The error a [`MockI2c`] returns once its scripted responses are used up.
#[derive(Debug, Clone, Copy, PartialEq, Eq)]
pub struct OutOfResponses;

/// A scripted bus for exercising the session without hardware: it accepts
/// every write, answers each write-read with the next queued response byte,
/// fails with [`OutOfResponses`] once the queue is empty, and records every
/// completed transaction.
pub struct MockI2c {
    responses: Vec<u8>,
    records: Vec<BusRecord>,
}

impl MockI2c {
    /// The response bytes not yet handed out, next first.
    pub closed spec fn spec_responses(&self) -> Seq<u8> {
        self.responses@
    }

    /// The records of the completed transactions, oldest first.
    pub closed spec fn spec_records(&self) -> Seq<BusRecord> {
        self.records@
    }

    /// Creates a bus that answers consecutive write-reads with `responses`.
    pub fn new(responses: Vec<u8>) -> (r: MockI2c)
        ensures
            r.spec_responses() == responses@,
            r.spec_records() == Seq::<BusRecord>::empty(),
            r.history() == Seq::<Transaction>::empty(),
    {
        let r = MockI2c { responses, records: Vec::new() };
        proof {
            assert(r.history() =~= Seq::<Transaction>::empty());
        }
        r
    }

    /// The records of the completed transactions, oldest first.
    pub fn records(&self) -> (r: &Vec<BusRecord>)
        ensures
            r@ == self.spec_records(),
    {
        &self.records
    }

    /// Whether the whole script was consumed: no queued response is left.
    pub fn done(&self) -> (r: bool)
        ensures
            r == (self.spec_responses().len() == 0),
    {
        self.responses.len() == 0
    }
}

impl I2cBus for MockI2c {
    type Error = OutOfResponses;

    closed spec fn history(&self) -> Seq<Transaction> {
        self.records@.map_values(|rec: BusRecord| rec@)
    }

    fn write(&mut self, address: u8, data: &[u8; 2]) -> (r: Result<(), OutOfResponses>) {
        let record = BusRecord::Write { address, data: *data };
        self.records.push(record);
        proof {
            assert(self.history() =~= old(self).history().push(
                (Transaction::Write { address, data: data@ }),
            ));
        }
        Ok(())
    }

    fn write_read(&mut self, address: u8, data: &[u8; 1]) -> (r: Result<u8, OutOfResponses>) {
        if self.responses.len() == 0 {
            return Err(OutOfResponses);
        }
        let response: u8 = self.responses.remove(0);
        let register: u8 = data[0];
        let record = BusRecord::WriteRead { address, register, response };
        self.records.push(record);
        proof {
            assert(data@ =~= seq![register]);
            assert(self.history() =~= old(self).history().push(
                (Transaction::WriteRead { address, data: data@, response }),
            ));
        }
        Ok(response)
    }
}

} // verus!

use vstd::prelude::*;

verus! {

/// One bus transaction, directed at the device with the 7-bit address `address`.
#[derive(Clone, Copy, Debug, PartialEq, Eq, Structural)]
pub enum Transaction {
    /// A single write carrying the two bytes `[register, value]`.
    Write { address: u8, register: u8, value: u8 },
    /// A write of the single byte `[register]`, then, without releasing the
    /// bus, a read of one byte.
    WriteRead { address: u8, register: u8 },
}

impl Transaction {
    /// The device address that the transaction is directed at.
    pub open spec fn spec_target(self) -> u8 {
        match self {
            Transaction::Write { address, .. } => address,
            Transaction::WriteRead { address, .. } => address,
        }
    }

    /// The bytes sent in the write phase.
    pub open spec fn spec_payload(self) -> Seq<u8> {
        match self {
            Transaction::Write { register, value, .. } => seq![register, value],
            Transaction::WriteRead { register, .. } => seq![register],
        }
    }

    /// How many bytes the read phase receives (none for a plain write).
    pub open spec fn spec_read_len(self) -> nat {
        match self {
            Transaction::Write { .. } => 0,
            Transaction::WriteRead { .. } => 1,
        }
    }

    /// The device address that the transaction is directed at.
    pub fn target(&self) -> (r: u8)
        ensures
            r == self.spec_target(),
    {
        match self {
            Transaction::Write { address, .. } => *address,
            Transaction::WriteRead { address, .. } => *address,
        }
    }

    /// The bytes to send in the write phase.
    pub fn payload(&self) -> (r: Vec<u8>)
        ensures
            r@ == self.spec_payload(),
    {
        match self {
            Transaction::Write { register, value, .. } => {
                let r = vec![*register, *value];
                assert(r@ =~= seq![*register, *value]);
                r
            },
            Transaction::WriteRead { register, .. } => {
                let r = vec![*register];
                assert(r@ =~= seq![*register]);
                r
            },
        }
    }

    /// The length of the buffer that the read phase fills.
    pub fn read_len(&self) -> (r: usize)
        ensures
            r == self.spec_read_len(),
    {
        match self {
            Transaction::Write { .. } => 0,
            Transaction::WriteRead { .. } => 1,
        }
    }
}

/// What a register read returns, given the outcome of its write-then-read
/// transaction and the byte that the read phase received.
pub open spec fn read_outcome<E>(outcome: Result<(), E>, byte: u8) -> Result<u8, E> {
    match outcome {
        Ok(_) => Ok(byte),
        Err(e) => Err(e),
    }
}

/// Completes a register read: on success the byte that the transport received,
/// on a transport fault that fault, unchanged.
pub fn read_result<E>(outcome: Result<(), E>, byte: u8) -> (r: Result<u8, E>)
    ensures
        r == read_outcome(outcome, byte),
        outcome is Ok ==> r == Ok::<u8, E>(byte),
        outcome is Err ==> r == Err::<u8, E>(outcome->Err_0),
{
    match outcome {
        Ok(()) => Ok(byte),
        Err(e) => Err(e),
    }
}

} // verus!

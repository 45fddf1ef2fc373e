//! The typed failures a transition can end in. Every failure aborts the whole
//! invocation with no state change; the host maps each kind to a status code.
//!
//! Ownership violations and missing signatures are distinct kinds here, even
//! though the host-facing status may conflate them; decode failures of
//! instruction bytes or stored records are typed failures too, with the same
//! observable effect as an abort: nothing is committed.

use vstd::prelude::*;

verus! {

#[derive(Clone, Copy, PartialEq, Eq, Structural, Debug)]
pub enum LedgerError {
    /// Empty payload, unrecognized opcode, a payload that is not a valid
    /// record, or an admin identity mismatch at creation.
    InvalidInstruction,
    /// Fewer account handles were supplied than the transition needs.
    NotEnoughAccounts,
    /// An account that must be owned by this program is not.
    NotProgramOwned,
    /// An account that must have signed the transaction has not.
    MissingSignature,
    /// The stored admin does not match the authorizing account on withdrawal.
    InvalidAccountData,
    /// The campaign account's stored bytes are not a valid record.
    MalformedRecord,
    /// Balance below the rent-exemption minimum at creation, or below the
    /// requested amount plus that minimum on withdrawal.
    InsufficientFunds,
    /// A balance or counter update would exceed the 64-bit range.
    ArithmeticOverflow,
    /// The campaign account's data buffer is too small for the record.
    AccountDataTooSmall,
}

} // verus!

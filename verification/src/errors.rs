//! Error taxonomy of the engine.
//!
//! Every handler propagates the first failed check immediately; the host
//! discards the whole transaction on any error, so no partial state is ever
//! visible.

use vstd::prelude::*;

verus! {

/// The reasons a handler can refuse an instruction.
#[derive(Clone, Copy, Debug, PartialEq, Eq, Structural)]
pub enum LendError {
    /// The instruction was given fewer accounts than the handler needs.
    NotEnoughAccountKeys,
    /// The payload has the wrong length or violates a numeric bound.
    InvalidInstructionData,
    /// A semantic precondition on record contents failed.
    InvalidAccountData,
    /// A supplied address does not match its derivation.
    InvalidSeeds,
    /// The record (or an account about to be created) already holds data.
    AccountAlreadyInitialized,
    /// The acting signer is not an authority for the requested mutation.
    IllegalOwner,
    /// The payer cannot cover the minimum balance of a new record.
    InsufficientFunds,
    /// A checked accounting update overflowed.
    ArithmeticOverflow,
    /// The dispatch entrypoint was invoked under the wrong program identity.
    IncorrectProgramId,
    /// A required signature is absent from the transaction.
    MissingRequiredSignature,
}

} // verus!

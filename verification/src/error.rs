//! The error taxonomy of the engine.
//!
//! Every failure is terminal for the call that raised it: no operation retries
//! internally, and a failed call leaves the escrow record and the ledger
//! exactly as they were.

use vstd::prelude::*;

verus! {

/// Why an `init`, `deposit` or `withdraw` call was refused.
#[derive(Clone, Copy, Debug, PartialEq, Eq, Structural)]
pub enum EscrowError {
    /// A required party did not authorize the call (`init` demands party A's
    /// signature).
    MissingSignature,
    /// The caller is neither `party_a` nor `party_b`.
    InvalidParty,
    /// The amount does not equal the fixed size of the side addressed.
    ExpectedAmountMismatch,
    /// A deposit was attempted for a side whose funds are already recorded.
    AlreadyDeposited,
    /// A withdrawal was attempted while nothing is deposited.
    EmptyEscrow,
    /// The withdrawer has not yet deposited their own required side.
    OwnEscrowDepositIncomplete,
    /// The withdrawer tried to claim the other asset before the counterparty
    /// funded it.
    CounterpartyEscrowDepositIncomplete,
    /// Both sides are funded: each party may only take the counterparty's
    /// asset, not reclaim its own deposit.
    EscrowLocked,
    /// The withdrawer already completed their swap leg.
    AlreadyWithdrawn,
    /// The ledger refused the balance movement (missing funds, mismatched
    /// asset, or failed authorization).
    TransferRejected,
    /// No nonce in range produced a keyless address for the given seeds.
    DerivationExhausted,
    /// A reachable-state assumption was broken; never swallowed.
    InvariantViolation,
}

impl EscrowError {
    /// A stable numeric code for each error, for hosts that report errors as
    /// integers.
    pub fn code(self) -> (r: u32)
        ensures
            r == self.spec_code(),
    {
        match self {
            EscrowError::InvalidParty => 0,
            EscrowError::ExpectedAmountMismatch => 1,
            EscrowError::OwnEscrowDepositIncomplete => 2,
            EscrowError::CounterpartyEscrowDepositIncomplete => 3,
            EscrowError::AlreadyDeposited => 4,
            EscrowError::EmptyEscrow => 5,
            EscrowError::EscrowLocked => 6,
            EscrowError::AlreadyWithdrawn => 7,
            EscrowError::MissingSignature => 8,
            EscrowError::TransferRejected => 9,
            EscrowError::DerivationExhausted => 10,
            EscrowError::InvariantViolation => 11,
        }
    }

    pub open spec fn spec_code(self) -> u32 {
        match self {
            EscrowError::InvalidParty => 0,
            EscrowError::ExpectedAmountMismatch => 1,
            EscrowError::OwnEscrowDepositIncomplete => 2,
            EscrowError::CounterpartyEscrowDepositIncomplete => 3,
            EscrowError::AlreadyDeposited => 4,
            EscrowError::EmptyEscrow => 5,
            EscrowError::EscrowLocked => 6,
            EscrowError::AlreadyWithdrawn => 7,
            EscrowError::MissingSignature => 8,
            EscrowError::TransferRejected => 9,
            EscrowError::DerivationExhausted => 10,
            EscrowError::InvariantViolation => 11,
        }
    }

    /// A short human-readable name for the error.
    pub fn message(self) -> (r: &'static str) {
        match self {
            EscrowError::MissingSignature => "Missing Signature",
            EscrowError::InvalidParty => "Invalid Party",
            EscrowError::ExpectedAmountMismatch => "Expected Amount Mismatch",
            EscrowError::AlreadyDeposited => "Already Deposited",
            EscrowError::EmptyEscrow => "Empty Escrow",
            EscrowError::OwnEscrowDepositIncomplete => "Own Escrow Deposit Incomplete",
            EscrowError::CounterpartyEscrowDepositIncomplete => "Counterparty Escrow Deposit Incomplete",
            EscrowError::EscrowLocked => "Escrow Locked",
            EscrowError::AlreadyWithdrawn => "Already Withdrawn",
            EscrowError::TransferRejected => "Transfer Rejected",
            EscrowError::DerivationExhausted => "Derivation Exhausted",
            EscrowError::InvariantViolation => "Invariant Violation",
        }
    }
}

} // verus!

use escrow_engine::error::EscrowError;

/// The numeric codes hosts report: the first five are fixed by the wire
/// contract of earlier deployments, the rest extend the sequence.
#[test]
fn error_codes_are_stable() {
    assert_eq!(EscrowError::InvalidParty.code(), 0);
    assert_eq!(EscrowError::ExpectedAmountMismatch.code(), 1);
    assert_eq!(EscrowError::OwnEscrowDepositIncomplete.code(), 2);
    assert_eq!(EscrowError::CounterpartyEscrowDepositIncomplete.code(), 3);
    assert_eq!(EscrowError::AlreadyDeposited.code(), 4);
    assert_eq!(EscrowError::EmptyEscrow.code(), 5);
    assert_eq!(EscrowError::EscrowLocked.code(), 6);
    assert_eq!(EscrowError::AlreadyWithdrawn.code(), 7);
    assert_eq!(EscrowError::MissingSignature.code(), 8);
    assert_eq!(EscrowError::TransferRejected.code(), 9);
    assert_eq!(EscrowError::DerivationExhausted.code(), 10);
    assert_eq!(EscrowError::InvariantViolation.code(), 11);
}

#[test]
fn error_messages_name_the_failure() {
    assert_eq!(EscrowError::InvalidParty.message(), "Invalid Party");
    assert_eq!(EscrowError::ExpectedAmountMismatch.message(), "Expected Amount Mismatch");
    assert_eq!(
        EscrowError::CounterpartyEscrowDepositIncomplete.message(),
        "Counterparty Escrow Deposit Incomplete"
    );
    assert_eq!(EscrowError::EscrowLocked.message(), "Escrow Locked");
}

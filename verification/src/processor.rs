//! The escrow state machine: `init`, `deposit` and `withdraw`.
//!
//! Either party may call any operation at any time, in any order; the
//! validation rules below decide, from the record's `state` and the call's
//! arguments alone, whether a single ledger transfer is performed and which
//! state the record moves to. Every validation failure aborts the call before
//! any transfer or state write, and a refused transfer leaves the record
//! untouched, so each call either fully commits or changes nothing.

use vstd::prelude::*;
use crate::addr::Addr;
use crate::error::EscrowError;
use crate::ledger::{
    Auth, Ledger, TokenAccount, can_transfer, contains_signer, do_transfer, has_account,
    lemma_idx_of_push, signers_contain,
};
use crate::pda::{
    escrow_seeds, pda_of, spec_escrow_seeds, spec_vault_seeds, try_derive_address, vault_seeds,
};
use crate::state::Escrow;

verus! {

/// Whether `who` is the record's party A.
pub open spec fn is_party_a(e: Escrow, who: Addr) -> bool {
    who@ == e.party_a@
}

/// Whether `who` is the record's party B.
pub open spec fn is_party_b(e: Escrow, who: Addr) -> bool {
    who@ == e.party_b@
}

/// Whether `vault` is one of the record's two custodial vaults.
pub open spec fn is_vault_of(e: Escrow, vault: Addr) -> bool {
    vault@ == e.vault_x@ || vault@ == e.vault_y@
}

/// The validation a deposit must pass, in order: the depositor must be a
/// party, the amount must equal that party's fixed size exactly, and that
/// party's side must not already be funded.
pub open spec fn deposit_validate(e: Escrow, depositor: Addr, amount: u64) -> Option<EscrowError> {
    if is_party_a(e, depositor) {
        if amount != e.size_a {
            Some(EscrowError::ExpectedAmountMismatch)
        } else if e.state == 1 || e.state >= 3 {
            Some(EscrowError::AlreadyDeposited)
        } else {
            None
        }
    } else if is_party_b(e, depositor) {
        if amount != e.size_b {
            Some(EscrowError::ExpectedAmountMismatch)
        } else if e.state == 2 || e.state >= 3 {
            Some(EscrowError::AlreadyDeposited)
        } else {
            None
        }
    } else {
        Some(EscrowError::InvalidParty)
    }
}

/// The state after a validated deposit: the depositor's bit is set.
pub open spec fn deposit_next_state(e: Escrow, depositor: Addr) -> u8 {
    if is_party_a(e, depositor) {
        if e.state == 0 {
            1u8
        } else {
            3u8
        }
    } else {
        if e.state == 0 {
            2u8
        } else {
            3u8
        }
    }
}

/// Everything a deposit call does, as a function of the record, the ledger
/// and the arguments: either the new state and the new ledger, or the exact
/// error — validation first, then the membership of the vault, then the
/// ledger's own checks.
pub open spec fn spec_deposit(
    e: Escrow,
    l: Seq<TokenAccount>,
    signers: Seq<Addr>,
    depositor: Addr,
    source: Addr,
    vault: Addr,
    amount: u64,
) -> Result<(u8, Seq<TokenAccount>), EscrowError> {
    match deposit_validate(e, depositor, amount) {
        Some(err) => Err(err),
        None => if !is_vault_of(e, vault) {
            Err(EscrowError::InvariantViolation)
        } else if can_transfer(l, source@, vault@, amount, Auth::Signer(depositor), signers) {
            Ok((deposit_next_state(e, depositor), do_transfer(l, source@, vault@, amount)))
        } else {
            Err(EscrowError::TransferRejected)
        },
    }
}

/// The validation a withdrawal must pass, in order: the withdrawer must be a
/// party; something must be deposited; the amount must match the vault's
/// side; the withdrawer's own side must be funded; a claim on the
/// counterparty's side needs that side funded; once both sides are funded
/// only the counterparty's side may be taken; and a completed swap leg cannot
/// be repeated.
pub open spec fn withdraw_validate(
    e: Escrow,
    withdrawer: Addr,
    vault: Addr,
    amount: u64,
) -> Option<EscrowError> {
    let a = is_party_a(e, withdrawer);
    let b = is_party_b(e, withdrawer);
    let vx = vault@ == e.vault_x@;
    let vy = vault@ == e.vault_y@;
    if !a && !b {
        Some(EscrowError::InvalidParty)
    } else if e.state == 0 {
        Some(EscrowError::EmptyEscrow)
    } else if vy && amount != e.size_b {
        Some(EscrowError::ExpectedAmountMismatch)
    } else if vx && amount != e.size_a {
        Some(EscrowError::ExpectedAmountMismatch)
    } else if e.state == 2 && a {
        Some(EscrowError::OwnEscrowDepositIncomplete)
    } else if e.state == 1 && b {
        Some(EscrowError::OwnEscrowDepositIncomplete)
    } else if e.state == 1 && a && vy {
        Some(EscrowError::CounterpartyEscrowDepositIncomplete)
    } else if e.state == 2 && b && vx {
        Some(EscrowError::CounterpartyEscrowDepositIncomplete)
    } else if e.state == 3 && a && vx {
        Some(EscrowError::EscrowLocked)
    } else if e.state == 3 && b && vy {
        Some(EscrowError::EscrowLocked)
    } else if e.state == 4 && a {
        Some(EscrowError::AlreadyWithdrawn)
    } else if e.state == 5 && b {
        Some(EscrowError::AlreadyWithdrawn)
    } else {
        None
    }
}

/// The state after a validated withdrawal, keyed on the withdrawer's role and
/// the current state: A moves 1 to 0 (cancel), 3 to 4 (swap leg), 5 to 0
/// (close); B symmetrically 2 to 0, 3 to 5, 4 to 0. `None` marks a
/// combination the validation can never let through.
pub open spec fn withdraw_next_state(e: Escrow, withdrawer: Addr) -> Option<u8> {
    if is_party_a(e, withdrawer) {
        if e.state == 1 {
            Some(0u8)
        } else if e.state == 3 {
            Some(4u8)
        } else if e.state == 5 {
            Some(0u8)
        } else {
            None
        }
    } else if is_party_b(e, withdrawer) {
        if e.state == 2 {
            Some(0u8)
        } else if e.state == 3 {
            Some(5u8)
        } else if e.state == 4 {
            Some(0u8)
        } else {
            None
        }
    } else {
        None
    }
}

/// Everything a withdraw call does, as a function of the record, the ledger
/// and the arguments. The transfer out of the vault runs under delegated
/// authority of the record's own derived address, which owns both vaults.
pub open spec fn spec_withdraw(
    e: Escrow,
    l: Seq<TokenAccount>,
    signers: Seq<Addr>,
    withdrawer: Addr,
    destination: Addr,
    vault: Addr,
    amount: u64,
    escrow_address: Addr,
) -> Result<(u8, Seq<TokenAccount>), EscrowError> {
    match withdraw_validate(e, withdrawer, vault, amount) {
        Some(err) => Err(err),
        None => if !is_vault_of(e, vault) {
            Err(EscrowError::InvariantViolation)
        } else {
            match withdraw_next_state(e, withdrawer) {
                None => Err(EscrowError::InvariantViolation),
                Some(ns) => if can_transfer(
                    l,
                    vault@,
                    destination@,
                    amount,
                    Auth::Delegated(escrow_address),
                    signers,
                ) {
                    Ok((ns, do_transfer(l, vault@, destination@, amount)))
                } else {
                    Err(EscrowError::TransferRejected)
                },
            }
        },
    }
}

/// What a successful `init` hands back: the new record and the derived
/// address it is to be persisted at.
#[derive(Clone, Copy, Debug)]
pub struct CreatedEscrow {
    pub record: Escrow,
    pub address: Addr,
}

pub struct Processor;

impl Processor {
    /// Opens an escrow. Party A must be among the call's signers (A pays for
    /// allocation, so only A can open). If a record already exists at the
    /// derived address the call is an idempotent no-op. Otherwise both vault
    /// addresses, then the record's own address, are derived, the two empty
    /// vault accounts are created on the ledger owned by the record's
    /// address, and the record comes back in state 0.
    ///
    /// A derivation that finds no nonce fails with `DerivationExhausted`; a
    /// derived vault address that collides with an existing account (or with
    /// the other vault) breaks the uniqueness the scheme is chosen for and
    /// fails with `InvariantViolation`.
    pub fn init(
        signers: &Vec<Addr>,
        party_a: Addr,
        party_b: Addr,
        x_mint: Addr,
        y_mint: Addr,
        size_a: u64,
        size_b: u64,
        program_id: Addr,
        existing: bool,
        ledger: &mut Ledger,
    ) -> (r: Result<Option<CreatedEscrow>, EscrowError>)
        requires
            old(ledger).wf(),
        ensures
            final(ledger).wf(),
            ({
                let signed = contains_signer(signers@, party_a);
                let vx = pda_of(spec_vault_seeds(x_mint, party_a, party_b), program_id@);
                let vy = pda_of(spec_vault_seeds(y_mint, party_a, party_b), program_id@);
                if !signed {
                    r == Err::<Option<CreatedEscrow>, EscrowError>(EscrowError::MissingSignature)
                        && final(ledger)@ == old(ledger)@
                } else if existing {
                    r == Ok::<Option<CreatedEscrow>, EscrowError>(None)
                        && final(ledger)@ == old(ledger)@
                } else {
                    match (vx, vy) {
                        (Some(px), Some(py)) => match pda_of(
                            spec_escrow_seeds(px.0, py.0, party_a, party_b),
                            program_id@,
                        ) {
                            Some(pe) => {
                                if px.0 == py.0 || has_account(old(ledger)@, px.0) || has_account(
                                    old(ledger)@,
                                    py.0,
                                ) {
                                    r == Err::<Option<CreatedEscrow>, EscrowError>(
                                        EscrowError::InvariantViolation,
                                    ) && final(ledger)@ == old(ledger)@
                                } else {
                                    match r {
                                        Ok(Some(c)) => {
                                            &&& c.record.party_a@ == party_a@
                                            &&& c.record.party_b@ == party_b@
                                            &&& c.record.size_a == size_a
                                            &&& c.record.size_b == size_b
                                            &&& c.record.vault_x@ == px.0
                                            &&& c.record.vault_y@ == py.0
                                            &&& c.record.state == 0
                                            &&& c.record.bump == pe.1
                                            &&& c.record.bump_vault_x == px.1
                                            &&& c.record.bump_vault_y == py.1
                                            &&& c.address@ == pe.0
                                            &&& final(ledger)@ == old(ledger)@.push(
                                                (TokenAccount {
                                                    address: c.record.vault_x,
                                                    mint: x_mint,
                                                    owner: c.address,
                                                    balance: 0,
                                                }),
                                            ).push(
                                                (TokenAccount {
                                                    address: c.record.vault_y,
                                                    mint: y_mint,
                                                    owner: c.address,
                                                    balance: 0,
                                                }),
                                            )
                                        },
                                        _ => false,
                                    }
                                }
                            },
                            None => r == Err::<Option<CreatedEscrow>, EscrowError>(
                                EscrowError::DerivationExhausted,
                            ) && final(ledger)@ == old(ledger)@,
                        },
                        _ => r == Err::<Option<CreatedEscrow>, EscrowError>(
                            EscrowError::DerivationExhausted,
                        ) && final(ledger)@ == old(ledger)@,
                    }
                }
            }),
    {
        if !signers_contain(signers, &party_a) {
            return Err(EscrowError::MissingSignature);
        }
        if existing {
            return Ok(None);
        }
        let x_seeds = vault_seeds(&x_mint, &party_a, &party_b);
        let (vault_x, bump_vault_x) = match try_derive_address(&x_seeds, &program_id) {
            Some(p) => p,
            None => {
                return Err(EscrowError::DerivationExhausted);
            },
        };
        let y_seeds = vault_seeds(&y_mint, &party_a, &party_b);
        let (vault_y, bump_vault_y) = match try_derive_address(&y_seeds, &program_id) {
            Some(p) => p,
            None => {
                return Err(EscrowError::DerivationExhausted);
            },
        };
        let e_seeds = escrow_seeds(&vault_x, &vault_y, &party_a, &party_b);
        let (address, bump) = match try_derive_address(&e_seeds, &program_id) {
            Some(p) => p,
            None => {
                return Err(EscrowError::DerivationExhausted);
            },
        };
        if vault_x == vault_y {
            return Err(EscrowError::InvariantViolation);
        }
        if ledger.find(&vault_x).is_some() || ledger.find(&vault_y).is_some() {
            return Err(EscrowError::InvariantViolation);
        }
        let acct_x = TokenAccount { address: vault_x, mint: x_mint, owner: address, balance: 0 };
        let acct_y = TokenAccount { address: vault_y, mint: y_mint, owner: address, balance: 0 };
        let ghost pre = ledger@;
        let added_x = ledger.add_account(acct_x);
        proof {
            lemma_idx_of_push(pre, acct_x, acct_y.address@);
        }
        let added_y = ledger.add_account(acct_y);
        assert(added_x && added_y);
        let record = Escrow {
            party_a,
            party_b,
            size_a,
            size_b,
            vault_x,
            vault_y,
            state: 0,
            bump,
            bump_vault_x,
            bump_vault_y,
        };
        Ok(Some(CreatedEscrow { record, address }))
    }

    /// The deposit validation alone, for a host that performs the transfer on
    /// an external ledger: the exact error the deposit would be refused with,
    /// or `None` when it may proceed.
    pub fn check_deposit(e: &Escrow, depositor: &Addr, amount: u64) -> (r: Option<EscrowError>)
        ensures
            r == deposit_validate(*e, *depositor, amount),
    {
        if *depositor == e.party_a {
            if amount != e.size_a {
                Some(EscrowError::ExpectedAmountMismatch)
            } else if e.state == 1 || e.state >= 3 {
                Some(EscrowError::AlreadyDeposited)
            } else {
                None
            }
        } else if *depositor == e.party_b {
            if amount != e.size_b {
                Some(EscrowError::ExpectedAmountMismatch)
            } else if e.state == 2 || e.state >= 3 {
                Some(EscrowError::AlreadyDeposited)
            } else {
                None
            }
        } else {
            Some(EscrowError::InvalidParty)
        }
    }

    /// The state a validated deposit advances to.
    pub fn deposit_transition(e: &Escrow, depositor: &Addr) -> (r: u8)
        ensures
            r == deposit_next_state(*e, *depositor),
    {
        if *depositor == e.party_a {
            if e.state == 0 {
                1
            } else {
                3
            }
        } else {
            if e.state == 0 {
                2
            } else {
                3
            }
        }
    }

    /// The withdrawal validation alone, for a host that performs the transfer
    /// on an external ledger.
    pub fn check_withdraw(e: &Escrow, withdrawer: &Addr, vault: &Addr, amount: u64) -> (r: Option<
        EscrowError,
    >)
        ensures
            r == withdraw_validate(*e, *withdrawer, *vault, amount),
    {
        let a = *withdrawer == e.party_a;
        let b = *withdrawer == e.party_b;
        let vx = *vault == e.vault_x;
        let vy = *vault == e.vault_y;
        if !a && !b {
            Some(EscrowError::InvalidParty)
        } else if e.state == 0 {
            Some(EscrowError::EmptyEscrow)
        } else if vy && amount != e.size_b {
            Some(EscrowError::ExpectedAmountMismatch)
        } else if vx && amount != e.size_a {
            Some(EscrowError::ExpectedAmountMismatch)
        } else if e.state == 2 && a {
            Some(EscrowError::OwnEscrowDepositIncomplete)
        } else if e.state == 1 && b {
            Some(EscrowError::OwnEscrowDepositIncomplete)
        } else if e.state == 1 && a && vy {
            Some(EscrowError::CounterpartyEscrowDepositIncomplete)
        } else if e.state == 2 && b && vx {
            Some(EscrowError::CounterpartyEscrowDepositIncomplete)
        } else if e.state == 3 && a && vx {
            Some(EscrowError::EscrowLocked)
        } else if e.state == 3 && b && vy {
            Some(EscrowError::EscrowLocked)
        } else if e.state == 4 && a {
            Some(EscrowError::AlreadyWithdrawn)
        } else if e.state == 5 && b {
            Some(EscrowError::AlreadyWithdrawn)
        } else {
            None
        }
    }

    /// The state a validated withdrawal advances to; `None` only on the
    /// combinations the validation refuses (see
    /// [`crate::laws::lemma_withdraw_transition_defined`]).
    pub fn withdraw_transition(e: &Escrow, withdrawer: &Addr) -> (r: Option<u8>)
        ensures
            r == withdraw_next_state(*e, *withdrawer),
    {
        if *withdrawer == e.party_a {
            if e.state == 1 {
                Some(0)
            } else if e.state == 3 {
                Some(4)
            } else if e.state == 5 {
                Some(0)
            } else {
                None
            }
        } else if *withdrawer == e.party_b {
            if e.state == 2 {
                Some(0)
            } else if e.state == 3 {
                Some(5)
            } else if e.state == 4 {
                Some(0)
            } else {
                None
            }
        } else {
            None
        }
    }

    /// Deposits `amount` from the depositor's `source` account into `vault`.
    /// On success the record's state advances by the depositor's bit; on any
    /// failure the record and the ledger are exactly as before. The behaviour
    /// is [`spec_deposit`] of the old record, the old ledger and the
    /// arguments.
    pub fn deposit(
        escrow: &mut Escrow,
        ledger: &mut Ledger,
        signers: &Vec<Addr>,
        depositor: Addr,
        source: Addr,
        vault: Addr,
        amount: u64,
    ) -> (r: Result<(), EscrowError>)
        requires
            old(ledger).wf(),
        ensures
            final(ledger).wf(),
            match spec_deposit(
                *old(escrow),
                old(ledger)@,
                signers@,
                depositor,
                source,
                vault,
                amount,
            ) {
                Ok(p) => r is Ok && *final(escrow) == (Escrow { state: p.0, ..*old(escrow) })
                    && final(ledger)@ == p.1,
                Err(e) => r == Err::<(), EscrowError>(e) && *final(escrow) == *old(escrow)
                    && final(ledger)@ == old(ledger)@,
            },
    {
        if depositor == escrow.party_a {
            if amount != escrow.size_a {
                return Err(EscrowError::ExpectedAmountMismatch);
            }
            if escrow.state == 1 || escrow.state >= 3 {
                return Err(EscrowError::AlreadyDeposited);
            }
        } else if depositor == escrow.party_b {
            if amount != escrow.size_b {
                return Err(EscrowError::ExpectedAmountMismatch);
            }
            if escrow.state == 2 || escrow.state >= 3 {
                return Err(EscrowError::AlreadyDeposited);
            }
        } else {
            return Err(EscrowError::InvalidParty);
        }
        if !(vault == escrow.vault_x || vault == escrow.vault_y) {
            return Err(EscrowError::InvariantViolation);
        }
        match ledger.transfer(&source, &vault, amount, Auth::Signer(depositor), signers) {
            Ok(()) => {},
            Err(e) => {
                return Err(e);
            },
        }
        let next: u8 = if depositor == escrow.party_a {
            if escrow.state == 0 {
                1
            } else {
                3
            }
        } else {
            if escrow.state == 0 {
                2
            } else {
                3
            }
        };
        escrow.state = next;
        Ok(())
    }

    /// Withdraws `amount` from `vault` to the withdrawer's `destination`
    /// account, under delegated authority of the record's own address
    /// `escrow_address` (reconstructible from the record's fields and
    /// `bump`), which owns both vaults. On success the record's state
    /// advances along the swap-or-cancel table; on any failure the record and
    /// the ledger are exactly as before. The behaviour is [`spec_withdraw`]
    /// of the old record, the old ledger and the arguments.
    pub fn withdraw(
        escrow: &mut Escrow,
        escrow_address: Addr,
        ledger: &mut Ledger,
        signers: &Vec<Addr>,
        withdrawer: Addr,
        destination: Addr,
        vault: Addr,
        amount: u64,
    ) -> (r: Result<(), EscrowError>)
        requires
            old(ledger).wf(),
        ensures
            final(ledger).wf(),
            match spec_withdraw(
                *old(escrow),
                old(ledger)@,
                signers@,
                withdrawer,
                destination,
                vault,
                amount,
                escrow_address,
            ) {
                Ok(p) => r is Ok && *final(escrow) == (Escrow { state: p.0, ..*old(escrow) })
                    && final(ledger)@ == p.1,
                Err(e) => r == Err::<(), EscrowError>(e) && *final(escrow) == *old(escrow)
                    && final(ledger)@ == old(ledger)@,
            },
    {
        let a = withdrawer == escrow.party_a;
        let b = withdrawer == escrow.party_b;
        let vx = vault == escrow.vault_x;
        let vy = vault == escrow.vault_y;
        if !a && !b {
            return Err(EscrowError::InvalidParty);
        }
        if escrow.state == 0 {
            return Err(EscrowError::EmptyEscrow);
        }
        if vy && amount != escrow.size_b {
            return Err(EscrowError::ExpectedAmountMismatch);
        }
        if vx && amount != escrow.size_a {
            return Err(EscrowError::ExpectedAmountMismatch);
        }
        if escrow.state == 2 && a {
            return Err(EscrowError::OwnEscrowDepositIncomplete);
        }
        if escrow.state == 1 && b {
            return Err(EscrowError::OwnEscrowDepositIncomplete);
        }
        if escrow.state == 1 && a && vy {
            return Err(EscrowError::CounterpartyEscrowDepositIncomplete);
        }
        if escrow.state == 2 && b && vx {
            return Err(EscrowError::CounterpartyEscrowDepositIncomplete);
        }
        if escrow.state == 3 && a && vx {
            return Err(EscrowError::EscrowLocked);
        }
        if escrow.state == 3 && b && vy {
            return Err(EscrowError::EscrowLocked);
        }
        if escrow.state == 4 && a {
            return Err(EscrowError::AlreadyWithdrawn);
        }
        if escrow.state == 5 && b {
            return Err(EscrowError::AlreadyWithdrawn);
        }
        if !(vx || vy) {
            return Err(EscrowError::InvariantViolation);
        }
        let next: u8 = if a {
            if escrow.state == 1 {
                0
            } else if escrow.state == 3 {
                4
            } else if escrow.state == 5 {
                0
            } else {
                return Err(EscrowError::InvariantViolation);
            }
        } else {
            if escrow.state == 2 {
                0
            } else if escrow.state == 3 {
                5
            } else if escrow.state == 4 {
                0
            } else {
                return Err(EscrowError::InvariantViolation);
            }
        };
        match ledger.transfer(
            &vault,
            &destination,
            amount,
            Auth::Delegated(escrow_address),
            signers,
        ) {
            Ok(()) => {},
            Err(e) => {
                return Err(e);
            },
        }
        escrow.state = next;
        Ok(())
    }
}

} // verus!

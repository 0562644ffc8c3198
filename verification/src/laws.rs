//! The guarantees of the protocol, proved once and for all.
//!
//! Each law quantifies over every record, ledger and pair of honest amounts
//! that meets its stated setup — no concrete values are fixed — and speaks in
//! terms of [`crate::processor::spec_deposit`] and
//! [`crate::processor::spec_withdraw`], which the executable operations are
//! proved to implement exactly.

use vstd::prelude::*;
use crate::addr::Addr;
use crate::error::EscrowError;
use crate::ledger::{
    Auth, TokenAccount, account_of, balance_of, can_transfer, contains_signer, do_transfer,
    has_account, ledger_wf, lemma_do_transfer,
};
use crate::processor::{
    is_party_a, is_party_b, is_vault_of, spec_deposit, spec_withdraw, withdraw_next_state,
    withdraw_validate,
};
use crate::state::Escrow;

verus! {

/// A record standing against a ledger: distinct parties, two distinct vault
/// accounts on the ledger, both owned (in the delegated sense) by the
/// record's derived address.
pub open spec fn escrow_setup(e: Escrow, escrow_address: Addr, l: Seq<TokenAccount>) -> bool {
    &&& ledger_wf(l)
    &&& e.party_a@ != e.party_b@
    &&& e.vault_x@ != e.vault_y@
    &&& has_account(l, e.vault_x@)
    &&& has_account(l, e.vault_y@)
    &&& account_of(l, e.vault_x@).owner@ == escrow_address@
    &&& account_of(l, e.vault_y@).owner@ == escrow_address@
}

/// `acct` is a ledger account controlled by `owner` and holding asset `mint`,
/// and is neither of the record's vaults.
pub open spec fn party_account(
    l: Seq<TokenAccount>,
    e: Escrow,
    acct: Addr,
    owner: Addr,
    mint: Seq<u8>,
) -> bool {
    &&& has_account(l, acct@)
    &&& account_of(l, acct@).owner@ == owner@
    &&& account_of(l, acct@).mint@ == mint
    &&& acct@ != e.vault_x@
    &&& acct@ != e.vault_y@
}

/// From an empty escrow, A depositing exactly `size_a` and then B depositing
/// exactly `size_b` funds both sides — state 3 — and from there neither party
/// can deposit its side again: both further honest deposits are refused with
/// `AlreadyDeposited`.
pub proof fn lemma_deposits_fund_then_refuse(
    e: Escrow,
    l: Seq<TokenAccount>,
    signers: Seq<Addr>,
    a_src: Addr,
    b_src: Addr,
    escrow_address: Addr,
)
    requires
        escrow_setup(e, escrow_address, l),
        e.state == 0,
        contains_signer(signers, e.party_a),
        contains_signer(signers, e.party_b),
        party_account(l, e, a_src, e.party_a, account_of(l, e.vault_x@).mint@),
        balance_of(l, a_src@) >= e.size_a,
        balance_of(l, e.vault_x@) + e.size_a <= u64::MAX,
        party_account(l, e, b_src, e.party_b, account_of(l, e.vault_y@).mint@),
        balance_of(l, b_src@) >= e.size_b,
        balance_of(l, e.vault_y@) + e.size_b <= u64::MAX,
    ensures
        ({
            let l1 = do_transfer(l, a_src@, e.vault_x@, e.size_a);
            let l2 = do_transfer(l1, b_src@, e.vault_y@, e.size_b);
            let e1 = (Escrow { state: 1, ..e });
            let e3 = (Escrow { state: 3, ..e });
            &&& spec_deposit(e, l, signers, e.party_a, a_src, e.vault_x, e.size_a)
                == Ok::<_, EscrowError>((1u8, l1))
            &&& spec_deposit(e1, l1, signers, e.party_b, b_src, e.vault_y, e.size_b)
                == Ok::<_, EscrowError>((3u8, l2))
            &&& spec_deposit(e3, l2, signers, e.party_a, a_src, e.vault_x, e.size_a)
                == Err::<(u8, Seq<TokenAccount>), _>(EscrowError::AlreadyDeposited)
            &&& spec_deposit(e3, l2, signers, e.party_b, b_src, e.vault_y, e.size_b)
                == Err::<(u8, Seq<TokenAccount>), _>(EscrowError::AlreadyDeposited)
        }),
{
    assert(a_src@ != b_src@);
    assert(can_transfer(l, a_src@, e.vault_x@, e.size_a, Auth::Signer(e.party_a), signers));
    lemma_do_transfer(l, a_src@, e.vault_x@, e.size_a, Auth::Signer(e.party_a), signers);
    let l1 = do_transfer(l, a_src@, e.vault_x@, e.size_a);
    assert(account_of(l1, b_src@) == account_of(l, b_src@));
    assert(account_of(l1, e.vault_y@) == account_of(l, e.vault_y@));
    assert(can_transfer(l1, b_src@, e.vault_y@, e.size_b, Auth::Signer(e.party_b), signers));
    lemma_do_transfer(l1, b_src@, e.vault_y@, e.size_b, Auth::Signer(e.party_b), signers);
}

/// Cancellation: from an empty escrow, A depositing and then immediately
/// withdrawing its own side — before B has deposited anything — returns the
/// state to 0 and the ledger to exactly what it was: the amount moved back to
/// the depositor once, net zero.
pub proof fn lemma_cancel_is_net_zero(
    e: Escrow,
    l: Seq<TokenAccount>,
    signers: Seq<Addr>,
    a_src: Addr,
    escrow_address: Addr,
)
    requires
        escrow_setup(e, escrow_address, l),
        e.state == 0,
        contains_signer(signers, e.party_a),
        party_account(l, e, a_src, e.party_a, account_of(l, e.vault_x@).mint@),
        balance_of(l, a_src@) >= e.size_a,
        balance_of(l, e.vault_x@) + e.size_a <= u64::MAX,
    ensures
        ({
            let l1 = do_transfer(l, a_src@, e.vault_x@, e.size_a);
            let e1 = (Escrow { state: 1, ..e });
            &&& spec_deposit(e, l, signers, e.party_a, a_src, e.vault_x, e.size_a)
                == Ok::<_, EscrowError>((1u8, l1))
            &&& spec_withdraw(
                e1,
                l1,
                signers,
                e.party_a,
                a_src,
                e.vault_x,
                e.size_a,
                escrow_address,
            ) == Ok::<_, EscrowError>((0u8, l))
        }),
{
    assert(can_transfer(l, a_src@, e.vault_x@, e.size_a, Auth::Signer(e.party_a), signers));
    lemma_do_transfer(l, a_src@, e.vault_x@, e.size_a, Auth::Signer(e.party_a), signers);
    let l1 = do_transfer(l, a_src@, e.vault_x@, e.size_a);
    let e1 = (Escrow { state: 1, ..e });
    assert(withdraw_validate(e1, e.party_a, e.vault_x, e.size_a) is None);
    crate::ledger::lemma_idx_of(l, a_src@);
    crate::ledger::lemma_idx_of(l, e.vault_x@);
    let ia = crate::ledger::idx_of(l, a_src@);
    let ix = crate::ledger::idx_of(l, e.vault_x@);
    assert(crate::ledger::idx_of(l1, a_src@) == ia);
    assert(crate::ledger::idx_of(l1, e.vault_x@) == ix);
    assert(l1[ia].mint@ == l[ia].mint@ && l1[ia].owner@ == l[ia].owner@);
    assert(l1[ix].mint@ == l[ix].mint@ && l1[ix].owner@ == l[ix].owner@);
    assert(can_transfer(
        l1,
        e.vault_x@,
        a_src@,
        e.size_a,
        Auth::Delegated(escrow_address),
        signers,
    ));
    lemma_do_transfer(l1, e.vault_x@, a_src@, e.size_a, Auth::Delegated(escrow_address), signers);
    let l2 = do_transfer(l1, e.vault_x@, a_src@, e.size_a);
    assert forall|i: int| 0 <= i < l.len() implies l2[i] == l[i] by {
        crate::ledger::lemma_idx_of(l, a_src@);
        crate::ledger::lemma_idx_of(l, e.vault_x@);
    }
    assert(l2 =~= l);
}

/// Swap completion: with both sides funded (state 3) and each vault holding
/// exactly its side's size, A withdrawing the counterparty vault and then B
/// withdrawing the other ends at state 0 with both vaults empty, A holding
/// `size_b` more of asset Y and B holding `size_a` more of asset X — and any
/// further withdrawal attempt is refused, with `AlreadyWithdrawn` while the
/// other leg is pending and `EmptyEscrow` once the escrow is closed.
pub proof fn lemma_swap_completion(
    e: Escrow,
    l: Seq<TokenAccount>,
    signers: Seq<Addr>,
    a_dst: Addr,
    b_dst: Addr,
    escrow_address: Addr,
)
    requires
        escrow_setup(e, escrow_address, l),
        e.state == 3,
        balance_of(l, e.vault_x@) == e.size_a,
        balance_of(l, e.vault_y@) == e.size_b,
        party_account(l, e, a_dst, e.party_a, account_of(l, e.vault_y@).mint@),
        balance_of(l, a_dst@) + e.size_b <= u64::MAX,
        party_account(l, e, b_dst, e.party_b, account_of(l, e.vault_x@).mint@),
        balance_of(l, b_dst@) + e.size_a <= u64::MAX,
    ensures
        ({
            let l1 = do_transfer(l, e.vault_y@, a_dst@, e.size_b);
            let l2 = do_transfer(l1, e.vault_x@, b_dst@, e.size_a);
            let e4 = (Escrow { state: 4, ..e });
            let e0 = (Escrow { state: 0, ..e });
            &&& spec_withdraw(e, l, signers, e.party_a, a_dst, e.vault_y, e.size_b, escrow_address)
                == Ok::<_, EscrowError>((4u8, l1))
            &&& spec_withdraw(
                e4,
                l1,
                signers,
                e.party_b,
                b_dst,
                e.vault_x,
                e.size_a,
                escrow_address,
            ) == Ok::<_, EscrowError>((0u8, l2))
            &&& balance_of(l2, e.vault_x@) == 0
            &&& balance_of(l2, e.vault_y@) == 0
            &&& balance_of(l2, a_dst@) == balance_of(l, a_dst@) + e.size_b
            &&& balance_of(l2, b_dst@) == balance_of(l, b_dst@) + e.size_a
            &&& spec_withdraw(
                e4,
                l1,
                signers,
                e.party_a,
                a_dst,
                e.vault_y,
                e.size_b,
                escrow_address,
            ) == Err::<(u8, Seq<TokenAccount>), _>(EscrowError::AlreadyWithdrawn)
            &&& spec_withdraw(
                e0,
                l2,
                signers,
                e.party_a,
                a_dst,
                e.vault_y,
                e.size_b,
                escrow_address,
            ) == Err::<(u8, Seq<TokenAccount>), _>(EscrowError::EmptyEscrow)
            &&& spec_withdraw(
                e0,
                l2,
                signers,
                e.party_b,
                b_dst,
                e.vault_x,
                e.size_a,
                escrow_address,
            ) == Err::<(u8, Seq<TokenAccount>), _>(EscrowError::EmptyEscrow)
        }),
{
    assert(a_dst@ != b_dst@);
    assert(can_transfer(
        l,
        e.vault_y@,
        a_dst@,
        e.size_b,
        Auth::Delegated(escrow_address),
        signers,
    ));
    lemma_do_transfer(l, e.vault_y@, a_dst@, e.size_b, Auth::Delegated(escrow_address), signers);
    let l1 = do_transfer(l, e.vault_y@, a_dst@, e.size_b);
    let e4 = (Escrow { state: 4, ..e });
    assert(withdraw_validate(e4, e.party_b, e.vault_x, e.size_a) is None);
    assert(account_of(l1, e.vault_x@) == account_of(l, e.vault_x@));
    assert(account_of(l1, b_dst@) == account_of(l, b_dst@));
    assert(can_transfer(
        l1,
        e.vault_x@,
        b_dst@,
        e.size_a,
        Auth::Delegated(escrow_address),
        signers,
    ));
    lemma_do_transfer(l1, e.vault_x@, b_dst@, e.size_a, Auth::Delegated(escrow_address), signers);
    let l2 = do_transfer(l1, e.vault_x@, b_dst@, e.size_a);
    assert(account_of(l2, e.vault_y@) == account_of(l1, e.vault_y@));
    assert(account_of(l2, a_dst@) == account_of(l1, a_dst@));
}

/// Order-independence of swap completion: from state 3, the A-then-B and
/// B-then-A withdrawal orders both succeed, both reach state 0, and leave
/// identical ledgers.
pub proof fn lemma_swap_order_independent(
    e: Escrow,
    l: Seq<TokenAccount>,
    signers: Seq<Addr>,
    a_dst: Addr,
    b_dst: Addr,
    escrow_address: Addr,
)
    requires
        escrow_setup(e, escrow_address, l),
        e.state == 3,
        balance_of(l, e.vault_x@) == e.size_a,
        balance_of(l, e.vault_y@) == e.size_b,
        party_account(l, e, a_dst, e.party_a, account_of(l, e.vault_y@).mint@),
        balance_of(l, a_dst@) + e.size_b <= u64::MAX,
        party_account(l, e, b_dst, e.party_b, account_of(l, e.vault_x@).mint@),
        balance_of(l, b_dst@) + e.size_a <= u64::MAX,
    ensures
        ({
            let l_a = do_transfer(l, e.vault_y@, a_dst@, e.size_b);
            let l_ab = do_transfer(l_a, e.vault_x@, b_dst@, e.size_a);
            let l_b = do_transfer(l, e.vault_x@, b_dst@, e.size_a);
            let l_ba = do_transfer(l_b, e.vault_y@, a_dst@, e.size_b);
            let e4 = (Escrow { state: 4, ..e });
            let e5 = (Escrow { state: 5, ..e });
            &&& spec_withdraw(e, l, signers, e.party_a, a_dst, e.vault_y, e.size_b, escrow_address)
                == Ok::<_, EscrowError>((4u8, l_a))
            &&& spec_withdraw(
                e4,
                l_a,
                signers,
                e.party_b,
                b_dst,
                e.vault_x,
                e.size_a,
                escrow_address,
            ) == Ok::<_, EscrowError>((0u8, l_ab))
            &&& spec_withdraw(e, l, signers, e.party_b, b_dst, e.vault_x, e.size_a, escrow_address)
                == Ok::<_, EscrowError>((5u8, l_b))
            &&& spec_withdraw(
                e5,
                l_b,
                signers,
                e.party_a,
                a_dst,
                e.vault_y,
                e.size_b,
                escrow_address,
            ) == Ok::<_, EscrowError>((0u8, l_ba))
            &&& l_ab == l_ba
        }),
{
    assert(a_dst@ != b_dst@);
    lemma_swap_completion(e, l, signers, a_dst, b_dst, escrow_address);
    // The B-then-A order, step by step.
    assert(can_transfer(
        l,
        e.vault_x@,
        b_dst@,
        e.size_a,
        Auth::Delegated(escrow_address),
        signers,
    ));
    lemma_do_transfer(l, e.vault_x@, b_dst@, e.size_a, Auth::Delegated(escrow_address), signers);
    let l_b = do_transfer(l, e.vault_x@, b_dst@, e.size_a);
    let e5 = (Escrow { state: 5, ..e });
    assert(withdraw_validate(e5, e.party_a, e.vault_y, e.size_b) is None);
    assert(account_of(l_b, e.vault_y@) == account_of(l, e.vault_y@));
    assert(account_of(l_b, a_dst@) == account_of(l, a_dst@));
    assert(can_transfer(
        l_b,
        e.vault_y@,
        a_dst@,
        e.size_b,
        Auth::Delegated(escrow_address),
        signers,
    ));
    lemma_do_transfer(l_b, e.vault_y@, a_dst@, e.size_b, Auth::Delegated(escrow_address), signers);
    // Both orders edit the same four distinct accounts with the same final
    // values, so the ledgers agree pointwise.
    let l_a = do_transfer(l, e.vault_y@, a_dst@, e.size_b);
    lemma_do_transfer(l, e.vault_y@, a_dst@, e.size_b, Auth::Delegated(escrow_address), signers);
    let l_ab = do_transfer(l_a, e.vault_x@, b_dst@, e.size_a);
    let l_ba = do_transfer(l_b, e.vault_y@, a_dst@, e.size_b);
    crate::ledger::lemma_idx_of(l, e.vault_x@);
    crate::ledger::lemma_idx_of(l, e.vault_y@);
    crate::ledger::lemma_idx_of(l, a_dst@);
    crate::ledger::lemma_idx_of(l, b_dst@);
    assert(l_ab =~= l_ba);
}

/// Funds only ever move by the single transfer of a validated call: a
/// successful deposit debits exactly the depositor's own, signed-for account
/// and credits one of the record's vaults by exactly the call's amount,
/// leaving every other account untouched — so no vault balance can underflow
/// and nothing is received without the matching authorized transfer.
pub proof fn lemma_deposit_moves_funds_only_authorized(
    e: Escrow,
    l: Seq<TokenAccount>,
    signers: Seq<Addr>,
    depositor: Addr,
    source: Addr,
    vault: Addr,
    amount: u64,
)
    requires
        ledger_wf(l),
        spec_deposit(e, l, signers, depositor, source, vault, amount) is Ok,
    ensures
        ({
            let r = spec_deposit(e, l, signers, depositor, source, vault, amount);
            &&& r matches Ok(p)
            &&& p.1 == do_transfer(l, source@, vault@, amount)
            &&& can_transfer(l, source@, vault@, amount, Auth::Signer(depositor), signers)
            &&& account_of(l, source@).owner@ == depositor@
            &&& contains_signer(signers, depositor)
            &&& is_vault_of(e, vault)
            &&& balance_of(l, source@) >= amount
            &&& balance_of(p.1, source@) == balance_of(l, source@) - amount
            &&& balance_of(p.1, vault@) == balance_of(l, vault@) + amount
            &&& forall|x: Seq<u8>|
                has_account(l, x) && x != source@ && x != vault@ ==> #[trigger] account_of(p.1, x)
                    == account_of(l, x)
        }),
{
    lemma_do_transfer(l, source@, vault@, amount, Auth::Signer(depositor), signers);
}

/// The withdrawal counterpart: a successful withdrawal debits exactly one of
/// the record's vaults — under the delegated authority of the vault's owning
/// escrow address — and credits exactly the named destination by exactly the
/// call's amount, leaving every other account untouched.
pub proof fn lemma_withdraw_moves_funds_only_authorized(
    e: Escrow,
    l: Seq<TokenAccount>,
    signers: Seq<Addr>,
    withdrawer: Addr,
    destination: Addr,
    vault: Addr,
    amount: u64,
    escrow_address: Addr,
)
    requires
        ledger_wf(l),
        spec_withdraw(e, l, signers, withdrawer, destination, vault, amount, escrow_address)
            is Ok,
    ensures
        ({
            let r = spec_withdraw(
                e,
                l,
                signers,
                withdrawer,
                destination,
                vault,
                amount,
                escrow_address,
            );
            &&& r matches Ok(p)
            &&& p.1 == do_transfer(l, vault@, destination@, amount)
            &&& can_transfer(l, vault@, destination@, amount, Auth::Delegated(escrow_address), signers)
            &&& account_of(l, vault@).owner@ == escrow_address@
            &&& is_party_a(e, withdrawer) || is_party_b(e, withdrawer)
            &&& is_vault_of(e, vault)
            &&& balance_of(l, vault@) >= amount
            &&& balance_of(p.1, vault@) == balance_of(l, vault@) - amount
            &&& balance_of(p.1, destination@) == balance_of(l, destination@) + amount
            &&& forall|x: Seq<u8>|
                has_account(l, x) && x != vault@ && x != destination@ ==> #[trigger] account_of(
                    p.1,
                    x,
                ) == account_of(l, x)
        }),
{
    lemma_do_transfer(l, vault@, destination@, amount, Auth::Delegated(escrow_address), signers);
}

/// A successful deposit leaves the standing of the record against the ledger
/// intact: every account keeps its address, asset and controller, the
/// record's parties, sizes and vaults are untouched, and only `state` and two
/// balances move. With [`lemma_withdraw_preserves_setup`] this makes the
/// setup an invariant of every reachable call sequence.
pub proof fn lemma_deposit_preserves_setup(
    e: Escrow,
    l: Seq<TokenAccount>,
    signers: Seq<Addr>,
    depositor: Addr,
    source: Addr,
    vault: Addr,
    amount: u64,
    escrow_address: Addr,
)
    requires
        escrow_setup(e, escrow_address, l),
    ensures
        spec_deposit(e, l, signers, depositor, source, vault, amount) matches Ok(p)
            ==> escrow_setup((Escrow { state: p.0, ..e }), escrow_address, p.1),
{
    if spec_deposit(e, l, signers, depositor, source, vault, amount) is Ok {
        lemma_do_transfer(l, source@, vault@, amount, Auth::Signer(depositor), signers);
        let l2 = do_transfer(l, source@, vault@, amount);
        crate::ledger::lemma_idx_of(l, e.vault_x@);
        crate::ledger::lemma_idx_of(l, e.vault_y@);
        let ix = crate::ledger::idx_of(l, e.vault_x@);
        let iy = crate::ledger::idx_of(l, e.vault_y@);
        assert(l2[ix].owner@ == l[ix].owner@);
        assert(l2[iy].owner@ == l[iy].owner@);
    }
}

/// The withdrawal counterpart of [`lemma_deposit_preserves_setup`].
pub proof fn lemma_withdraw_preserves_setup(
    e: Escrow,
    l: Seq<TokenAccount>,
    signers: Seq<Addr>,
    withdrawer: Addr,
    destination: Addr,
    vault: Addr,
    amount: u64,
    escrow_address: Addr,
)
    requires
        escrow_setup(e, escrow_address, l),
    ensures
        spec_withdraw(e, l, signers, withdrawer, destination, vault, amount, escrow_address)
            matches Ok(p) ==> escrow_setup((Escrow { state: p.0, ..e }), escrow_address, p.1),
{
    if spec_withdraw(e, l, signers, withdrawer, destination, vault, amount, escrow_address)
        is Ok {
        lemma_do_transfer(l, vault@, destination@, amount, Auth::Delegated(escrow_address), signers);
        let l2 = do_transfer(l, vault@, destination@, amount);
        crate::ledger::lemma_idx_of(l, e.vault_x@);
        crate::ledger::lemma_idx_of(l, e.vault_y@);
        let ix = crate::ledger::idx_of(l, e.vault_x@);
        let iy = crate::ledger::idx_of(l, e.vault_y@);
        assert(l2[ix].owner@ == l[ix].owner@);
        assert(l2[iy].owner@ == l[iy].owner@);
    }
}

/// The `InvariantViolation` default of the withdrawal transition table is
/// unreachable: whenever a withdrawal passes validation on a well-formed
/// record, its next state is defined.
pub proof fn lemma_withdraw_transition_defined(e: Escrow, withdrawer: Addr, vault: Addr, amount: u64)
    requires
        e.wf(),
        withdraw_validate(e, withdrawer, vault, amount) is None,
    ensures
        withdraw_next_state(e, withdrawer) is Some,
{
}

/// Deposits keep the record well-formed, and only ever set state 1, 2 or 3.
pub proof fn lemma_deposit_preserves_wf(
    e: Escrow,
    l: Seq<TokenAccount>,
    signers: Seq<Addr>,
    depositor: Addr,
    source: Addr,
    vault: Addr,
    amount: u64,
)
    requires
        e.wf(),
    ensures
        spec_deposit(e, l, signers, depositor, source, vault, amount) matches Ok(p) ==> 1 <= p.0
            <= 3,
{
}

/// Withdrawals keep the record well-formed, and only ever set state 0, 4 or
/// 5.
pub proof fn lemma_withdraw_preserves_wf(
    e: Escrow,
    l: Seq<TokenAccount>,
    signers: Seq<Addr>,
    withdrawer: Addr,
    destination: Addr,
    vault: Addr,
    amount: u64,
    escrow_address: Addr,
)
    requires
        e.wf(),
    ensures
        spec_withdraw(e, l, signers, withdrawer, destination, vault, amount, escrow_address)
            matches Ok(p) ==> p.0 == 0 || p.0 == 4 || p.0 == 5,
{
}

} // verus!


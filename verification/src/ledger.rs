//! The asset ledger the engine moves balances on.
//!
//! The engine itself never edits a balance: every movement goes through
//! [`Ledger::transfer`], which re-checks existence, asset identity,
//! authorization and funds, and either moves exactly the requested amount
//! between exactly the two named accounts or leaves the ledger untouched.
//! Authorization is either the direct signature of the source account's
//! controller, or delegated control of a keyless authority address (a vault's
//! owning escrow record, whose derivation seeds the caller reconstructed).

use vstd::prelude::*;
use crate::addr::Addr;
use crate::error::EscrowError;

verus! {

/// One ledger account: a balance of the asset `mint`, controlled by `owner`.
#[derive(Clone, Copy, Debug)]
pub struct TokenAccount {
    pub address: Addr,
    pub mint: Addr,
    pub owner: Addr,
    pub balance: u64,
}

/// Authorization presented to the ledger for a transfer's source account.
#[derive(Clone, Copy, Debug)]
pub enum Auth {
    /// The direct signature of the named identity, which must control the
    /// source account and be among the call's signers.
    Signer(Addr),
    /// Delegated control: the caller reconstructed the derivation of this
    /// keyless authority address, which must control the source account.
    Delegated(Addr),
}

/// The index of the account with address `a`, or `-1` if there is none.
pub open spec fn idx_of(l: Seq<TokenAccount>, a: Seq<u8>) -> int
    decreases l.len(),
{
    if l.len() == 0 {
        -1
    } else if l[0].address@ == a {
        0
    } else {
        let r = idx_of(l.subrange(1, l.len() as int), a);
        if r == -1 {
            -1
        } else {
            r + 1
        }
    }
}

pub open spec fn has_account(l: Seq<TokenAccount>, a: Seq<u8>) -> bool {
    idx_of(l, a) >= 0
}

pub open spec fn account_of(l: Seq<TokenAccount>, a: Seq<u8>) -> TokenAccount {
    l[idx_of(l, a)]
}

pub open spec fn balance_of(l: Seq<TokenAccount>, a: Seq<u8>) -> u64 {
    account_of(l, a).balance
}

/// Account addresses are unique.
pub open spec fn ledger_wf(l: Seq<TokenAccount>) -> bool {
    forall|i: int, j: int| 0 <= i < j < l.len() ==> l[i].address@ != l[j].address@
}

/// Whether `s` is among the identities that signed the call.
pub open spec fn contains_signer(signers: Seq<Addr>, s: Addr) -> bool {
    exists|i: int| 0 <= i < signers.len() && signers[i]@ == s@
}

/// Whether `auth` proves control of an account controlled by `owner`.
pub open spec fn auth_ok(owner: Addr, auth: Auth, signers: Seq<Addr>) -> bool {
    match auth {
        Auth::Signer(s) => s@ == owner@ && contains_signer(signers, s),
        Auth::Delegated(a) => a@ == owner@,
    }
}

/// Everything the ledger demands of a transfer: two distinct existing
/// accounts of the same asset, authorization over the source, sufficient
/// funds, and room in the destination.
pub open spec fn can_transfer(
    l: Seq<TokenAccount>,
    from: Seq<u8>,
    to: Seq<u8>,
    amount: u64,
    auth: Auth,
    signers: Seq<Addr>,
) -> bool {
    &&& from != to
    &&& has_account(l, from)
    &&& has_account(l, to)
    &&& account_of(l, from).mint@ == account_of(l, to).mint@
    &&& auth_ok(account_of(l, from).owner, auth, signers)
    &&& account_of(l, from).balance >= amount
    &&& account_of(l, to).balance + amount <= u64::MAX
}

/// The ledger after a permitted transfer: the source debited and the
/// destination credited by exactly `amount`, all else untouched.
pub open spec fn do_transfer(
    l: Seq<TokenAccount>,
    from: Seq<u8>,
    to: Seq<u8>,
    amount: u64,
) -> Seq<TokenAccount> {
    let fa = account_of(l, from);
    let ta = account_of(l, to);
    l.update(idx_of(l, from), TokenAccount { balance: (fa.balance - amount) as u64, ..fa }).update(
        idx_of(l, to),
        TokenAccount { balance: (ta.balance + amount) as u64, ..ta },
    )
}

/// Where `idx_of` points, and what its two outcomes mean.
pub proof fn lemma_idx_of(l: Seq<TokenAccount>, a: Seq<u8>)
    ensures
        -1 <= idx_of(l, a) < l.len(),
        idx_of(l, a) >= 0 ==> l[idx_of(l, a)].address@ == a,
        idx_of(l, a) == -1 ==> forall|i: int| 0 <= i < l.len() ==> l[i].address@ != a,
        forall|i: int| 0 <= i < idx_of(l, a) ==> l[i].address@ != a,
    decreases l.len(),
{
    if l.len() > 0 && l[0].address@ != a {
        let tail = l.subrange(1, l.len() as int);
        lemma_idx_of(tail, a);
        assert(forall|i: int| 0 <= i < tail.len() ==> tail[i] == l[i + 1]);
        if idx_of(l, a) == -1 {
            assert forall|i: int| 0 <= i < l.len() implies l[i].address@ != a by {
                if i >= 1 {
                    assert(tail[i - 1] == l[i]);
                    assert(tail[i - 1].address@ != a);
                }
            }
        }
        assert forall|i: int| 0 <= i < idx_of(l, a) implies l[i].address@ != a by {
            if i >= 1 {
                assert(tail[i - 1] == l[i]);
                assert(tail[i - 1].address@ != a);
            }
        }
    }
}

/// A linear scan that stops at the first hit computes `idx_of`.
pub proof fn lemma_idx_of_found(l: Seq<TokenAccount>, a: Seq<u8>, i: int)
    requires
        0 <= i < l.len(),
        l[i].address@ == a,
        forall|j: int| 0 <= j < i ==> l[j].address@ != a,
    ensures
        idx_of(l, a) == i,
    decreases l.len(),
{
    if i > 0 {
        let tail = l.subrange(1, l.len() as int);
        assert(forall|j: int| 0 <= j < tail.len() ==> tail[j] == l[j + 1]);
        lemma_idx_of_found(tail, a, i - 1);
    }
}

/// Adding an account leaves every existing lookup in place; the new address
/// becomes visible at the end.
pub proof fn lemma_idx_of_push(l: Seq<TokenAccount>, acct: TokenAccount, a: Seq<u8>)
    ensures
        idx_of(l.push(acct), a) == (if idx_of(l, a) >= 0 {
            idx_of(l, a)
        } else if acct.address@ == a {
            l.len() as int
        } else {
            -1
        }),
    decreases l.len(),
{
    lemma_idx_of(l, a);
    let l2 = l.push(acct);
    if idx_of(l, a) >= 0 {
        lemma_idx_of_found(l2, a, idx_of(l, a));
    } else if acct.address@ == a {
        lemma_idx_of_found(l2, a, l.len() as int);
    } else {
        lemma_idx_of(l2, a);
        if idx_of(l2, a) >= 0 {
            assert(l2[idx_of(l2, a)].address@ == a);
            assert(false);
        }
    }
}

/// `idx_of` depends only on the addresses, not the balances.
pub proof fn lemma_idx_of_congruent(l1: Seq<TokenAccount>, l2: Seq<TokenAccount>, a: Seq<u8>)
    requires
        l1.len() == l2.len(),
        forall|i: int| 0 <= i < l1.len() ==> l1[i].address@ == l2[i].address@,
    ensures
        idx_of(l1, a) == idx_of(l2, a),
    decreases l1.len(),
{
    if l1.len() > 0 {
        let t1 = l1.subrange(1, l1.len() as int);
        let t2 = l2.subrange(1, l2.len() as int);
        assert(forall|i: int| 0 <= i < t1.len() ==> t1[i] == l1[i + 1] && t2[i] == l2[i + 1]);
        lemma_idx_of_congruent(t1, t2, a);
    }
}

/// What a permitted transfer does: both balances move by exactly `amount`,
/// every other account — and every address, asset and controller — is
/// untouched, and the ledger stays well-formed.
pub proof fn lemma_do_transfer(
    l: Seq<TokenAccount>,
    from: Seq<u8>,
    to: Seq<u8>,
    amount: u64,
    auth: Auth,
    signers: Seq<Addr>,
)
    requires
        ledger_wf(l),
        can_transfer(l, from, to, amount, auth, signers),
    ensures
        ({
            let l2 = do_transfer(l, from, to, amount);
            &&& l2.len() == l.len()
            &&& ledger_wf(l2)
            &&& forall|i: int|
                0 <= i < l.len() ==> #[trigger] l2[i].address@ == l[i].address@ && l2[i].mint@
                    == l[i].mint@ && l2[i].owner@ == l[i].owner@
            &&& forall|x: Seq<u8>| #[trigger] idx_of(l2, x) == idx_of(l, x)
            &&& balance_of(l2, from) == balance_of(l, from) - amount
            &&& balance_of(l2, to) == balance_of(l, to) + amount
            &&& forall|x: Seq<u8>|
                has_account(l, x) && x != from && x != to ==> #[trigger] account_of(l2, x)
                    == account_of(l, x)
        }),
{
    let fi = idx_of(l, from);
    let ti = idx_of(l, to);
    lemma_idx_of(l, from);
    lemma_idx_of(l, to);
    assert(fi != ti);
    let l2 = do_transfer(l, from, to, amount);
    assert(forall|i: int|
        0 <= i < l.len() ==> #[trigger] l2[i].address@ == l[i].address@ && l2[i].mint@
            == l[i].mint@ && l2[i].owner@ == l[i].owner@);
    assert forall|x: Seq<u8>| #[trigger] idx_of(l2, x) == idx_of(l, x) by {
        lemma_idx_of_congruent(l, l2, x);
    }
    assert forall|x: Seq<u8>|
        has_account(l, x) && x != from && x != to implies #[trigger] account_of(l2, x)
        == account_of(l, x) by {
        lemma_idx_of(l, x);
        let xi = idx_of(l, x);
        assert(l[xi].address@ == x);
        assert(xi != fi && xi != ti);
    }
}

/// The total quantity of the asset `mint` held across all accounts.
pub open spec fn mint_total(l: Seq<TokenAccount>, mint: Seq<u8>) -> int
    decreases l.len(),
{
    if l.len() == 0 {
        0
    } else {
        (if l[0].mint@ == mint {
            l[0].balance as int
        } else {
            0
        }) + mint_total(l.subrange(1, l.len() as int), mint)
    }
}

/// Replacing one account, asset kept, moves the total of that asset by
/// exactly the balance difference.
pub proof fn lemma_mint_total_update(l: Seq<TokenAccount>, i: int, a: TokenAccount, mint: Seq<u8>)
    requires
        0 <= i < l.len(),
        a.mint@ == l[i].mint@,
    ensures
        mint_total(l.update(i, a), mint) == mint_total(l, mint) + (if a.mint@ == mint {
            a.balance - l[i].balance
        } else {
            0
        }),
    decreases l.len(),
{
    let l2 = l.update(i, a);
    if i == 0 {
        assert(l2.subrange(1, l2.len() as int) =~= l.subrange(1, l.len() as int));
    } else {
        assert(l2.subrange(1, l2.len() as int) =~= l.subrange(1, l.len() as int).update(
            i - 1,
            a,
        ));
        lemma_mint_total_update(l.subrange(1, l.len() as int), i - 1, a, mint);
    }
}

/// Conservation: a permitted transfer neither creates nor destroys units of
/// any asset — the total of every asset over the whole ledger is unchanged.
pub proof fn lemma_transfer_conserves_assets(
    l: Seq<TokenAccount>,
    from: Seq<u8>,
    to: Seq<u8>,
    amount: u64,
    auth: Auth,
    signers: Seq<Addr>,
    mint: Seq<u8>,
)
    requires
        ledger_wf(l),
        can_transfer(l, from, to, amount, auth, signers),
    ensures
        mint_total(do_transfer(l, from, to, amount), mint) == mint_total(l, mint),
{
    let fi = idx_of(l, from);
    let ti = idx_of(l, to);
    lemma_idx_of(l, from);
    lemma_idx_of(l, to);
    let fa = account_of(l, from);
    let ta = account_of(l, to);
    let fa2 = TokenAccount { balance: (fa.balance - amount) as u64, ..fa };
    let ta2 = TokenAccount { balance: (ta.balance + amount) as u64, ..ta };
    let l1 = l.update(fi, fa2);
    lemma_mint_total_update(l, fi, fa2, mint);
    assert(l1[ti] == l[ti]);
    lemma_mint_total_update(l1, ti, ta2, mint);
    assert(do_transfer(l, from, to, amount) == l1.update(ti, ta2));
}

/// The asset ledger: a set of accounts addressed by unique 32-byte addresses.
pub struct Ledger {
    pub accounts: Vec<TokenAccount>,
}

impl View for Ledger {
    type V = Seq<TokenAccount>;

    open spec fn view(&self) -> Seq<TokenAccount> {
        self.accounts@
    }
}

impl Ledger {
    pub open spec fn wf(self) -> bool {
        ledger_wf(self@)
    }

    /// An empty ledger.
    pub fn new() -> (r: Ledger)
        ensures
            r@ == Seq::<TokenAccount>::empty(),
            r.wf(),
    {
        Ledger { accounts: Vec::new() }
    }

    /// The index of the account with address `a`, if any.
    pub fn find(&self, a: &Addr) -> (r: Option<usize>)
        ensures
            match r {
                Some(i) => 0 <= i < self@.len() && i == idx_of(self@, a@),
                None => idx_of(self@, a@) == -1,
            },
    {
        let n = self.accounts.len();
        let mut i: usize = 0;
        while i < n
            invariant
                i <= n == self@.len(),
                forall|j: int| 0 <= j < i ==> self@[j].address@ != a@,
            decreases n - i,
        {
            if self.accounts[i].address == *a {
                proof {
                    lemma_idx_of_found(self@, a@, i as int);
                }
                return Some(i);
            }
            i += 1;
        }
        proof {
            lemma_idx_of(self@, a@);
        }
        None
    }

    /// The balance of the account with address `a`, if any.
    pub fn balance(&self, a: &Addr) -> (r: Option<u64>)
        ensures
            match r {
                Some(b) => has_account(self@, a@) && b == balance_of(self@, a@),
                None => !has_account(self@, a@),
            },
    {
        match self.find(a) {
            Some(i) => Some(self.accounts[i].balance),
            None => None,
        }
    }

    /// Adds an account; refuses an address already present, so that the
    /// ledger stays well-formed.
    pub fn add_account(&mut self, acct: TokenAccount) -> (r: bool)
        requires
            old(self).wf(),
        ensures
            final(self).wf(),
            r == !has_account(old(self)@, acct.address@),
            r ==> final(self)@ == old(self)@.push(acct),
            !r ==> final(self)@ == old(self)@,
    {
        match self.find(&acct.address) {
            Some(_) => false,
            None => {
                proof {
                    lemma_idx_of(self@, acct.address@);
                }
                self.accounts.push(acct);
                true
            },
        }
    }

    /// Moves `amount` from `from` to `to` under `auth`, or refuses with
    /// [`EscrowError::TransferRejected`] and changes nothing. Succeeds if and
    /// only if [`can_transfer`] holds of the arguments.
    pub fn transfer(
        &mut self,
        from: &Addr,
        to: &Addr,
        amount: u64,
        auth: Auth,
        signers: &Vec<Addr>,
    ) -> (r: Result<(), EscrowError>)
        requires
            old(self).wf(),
        ensures
            final(self).wf(),
            match r {
                Ok(()) => can_transfer(old(self)@, from@, to@, amount, auth, signers@)
                    && final(self)@ == do_transfer(old(self)@, from@, to@, amount),
                Err(e) => e == EscrowError::TransferRejected && !can_transfer(
                    old(self)@,
                    from@,
                    to@,
                    amount,
                    auth,
                    signers@,
                ) && final(self)@ == old(self)@,
            },
    {
        if *from == *to {
            return Err(EscrowError::TransferRejected);
        }
        let fi = match self.find(from) {
            Some(i) => i,
            None => {
                return Err(EscrowError::TransferRejected);
            },
        };
        let ti = match self.find(to) {
            Some(i) => i,
            None => {
                return Err(EscrowError::TransferRejected);
            },
        };
        proof {
            lemma_idx_of(self@, from@);
            lemma_idx_of(self@, to@);
        }
        let fa = self.accounts[fi];
        let ta = self.accounts[ti];
        if !(fa.mint == ta.mint) {
            return Err(EscrowError::TransferRejected);
        }
        let authorized = match auth {
            Auth::Signer(s) => s == fa.owner && signers_contain(signers, &s),
            Auth::Delegated(a) => a == fa.owner,
        };
        if !authorized {
            return Err(EscrowError::TransferRejected);
        }
        if fa.balance < amount {
            return Err(EscrowError::TransferRejected);
        }
        if amount > u64::MAX - ta.balance {
            return Err(EscrowError::TransferRejected);
        }
        let new_fa = TokenAccount { balance: fa.balance - amount, ..fa };
        let new_ta = TokenAccount { balance: ta.balance + amount, ..ta };
        self.accounts[fi] = new_fa;
        self.accounts[ti] = new_ta;
        proof {
            lemma_do_transfer(old(self)@, from@, to@, amount, auth, signers@);
            assert(self@ =~= do_transfer(old(self)@, from@, to@, amount));
        }
        Ok(())
    }
}

/// Whether `s` signed the call.
pub fn signers_contain(signers: &Vec<Addr>, s: &Addr) -> (r: bool)
    ensures
        r == contains_signer(signers@, *s),
{
    let n = signers.len();
    let mut i: usize = 0;
    while i < n
        invariant
            i <= n == signers@.len(),
            forall|j: int| 0 <= j < i ==> signers@[j]@ != s@,
        decreases n - i,
    {
        if signers[i] == *s {
            return true;
        }
        i += 1;
    }
    false
}

} // verus!

use escrow_engine::addr::Addr;
use escrow_engine::error::EscrowError;
use escrow_engine::ledger::{Ledger, TokenAccount};
use escrow_engine::processor::{CreatedEscrow, Processor};

fn addr(n: u8) -> Addr {
    Addr::new([n; 32])
}

fn account(address: Addr, mint: Addr, owner: Addr, balance: u64) -> TokenAccount {
    TokenAccount { address, mint, owner, balance }
}

/// A ready-to-trade world: parties A and B, mints X and Y, a token account
/// per party and asset (A funded with X, B funded with Y), and a freshly
/// initialized escrow asking 100 X from A and 250 Y from B.
fn setup() -> (Ledger, CreatedEscrow) {
    let a = addr(1);
    let b = addr(2);
    let x_mint = addr(3);
    let y_mint = addr(4);
    let program_id = addr(9);
    let mut ledger = Ledger::new();
    assert!(ledger.add_account(account(addr(10), x_mint, a, 1000)));
    assert!(ledger.add_account(account(addr(11), y_mint, a, 0)));
    assert!(ledger.add_account(account(addr(12), x_mint, b, 0)));
    assert!(ledger.add_account(account(addr(13), y_mint, b, 1000)));
    let signers = vec![a];
    let created = Processor::init(
        &signers,
        a,
        b,
        x_mint,
        y_mint,
        100,
        250,
        program_id,
        false,
        &mut ledger,
    )
    .expect("init should succeed")
    .expect("a fresh init should create a record");
    (ledger, created)
}

#[test]
fn init_creates_empty_escrow() {
    let (ledger, created) = setup();
    assert_eq!(created.record.state, 0);
    assert_eq!(created.record.size_a, 100);
    assert_eq!(created.record.size_b, 250);
    assert!(created.record.party_a == addr(1));
    assert!(created.record.party_b == addr(2));
    assert_eq!(ledger.balance(&created.record.vault_x), Some(0));
    assert_eq!(ledger.balance(&created.record.vault_y), Some(0));
}

#[test]
fn init_requires_party_a_signature() {
    let a = addr(1);
    let b = addr(2);
    let mut ledger = Ledger::new();
    let signers = vec![b];
    let r = Processor::init(
        &signers,
        a,
        b,
        addr(3),
        addr(4),
        100,
        250,
        addr(9),
        false,
        &mut ledger,
    );
    assert!(matches!(r, Err(EscrowError::MissingSignature)));
}

#[test]
fn init_is_idempotent_when_record_exists() {
    let a = addr(1);
    let mut ledger = Ledger::new();
    let signers = vec![a];
    let r = Processor::init(
        &signers,
        a,
        addr(2),
        addr(3),
        addr(4),
        100,
        250,
        addr(9),
        true,
        &mut ledger,
    );
    assert!(matches!(r, Ok(None)));
    assert_eq!(ledger.accounts.len(), 0);
}

/// The worked protocol walk: every step's state and every refused call's
/// exact error, ending with both sides swapped and the record closed.
#[test]
fn full_swap_scenario() {
    let (mut ledger, created) = setup();
    let mut record = created.record;
    let a = addr(1);
    let b = addr(2);
    let a_x = addr(10);
    let a_y = addr(11);
    let b_x = addr(12);
    let b_y = addr(13);
    let vault_x = record.vault_x;
    let vault_y = record.vault_y;
    let signers = vec![a, b];

    let r = Processor::deposit(&mut record, &mut ledger, &signers, a, a_x, vault_x, 100);
    assert_eq!(r, Ok(()));
    assert_eq!(record.state, 1);
    assert_eq!(ledger.balance(&a_x), Some(900));
    assert_eq!(ledger.balance(&vault_x), Some(100));

    let r = Processor::deposit(&mut record, &mut ledger, &signers, a, a_x, vault_x, 100);
    assert_eq!(r, Err(EscrowError::AlreadyDeposited));
    assert_eq!(record.state, 1);

    // B's own side is unfunded: checked before the counterparty rule.
    let r = Processor::withdraw(
        &mut record,
        created.address,
        &mut ledger,
        &signers,
        b,
        b_x,
        vault_x,
        100,
    );
    assert_eq!(r, Err(EscrowError::OwnEscrowDepositIncomplete));
    assert_eq!(record.state, 1);

    let r = Processor::deposit(&mut record, &mut ledger, &signers, b, b_y, vault_y, 250);
    assert_eq!(r, Ok(()));
    assert_eq!(record.state, 3);
    assert_eq!(ledger.balance(&b_y), Some(750));
    assert_eq!(ledger.balance(&vault_y), Some(250));

    // Locked: A may only take the counterparty's side now.
    let r = Processor::withdraw(
        &mut record,
        created.address,
        &mut ledger,
        &signers,
        a,
        a_x,
        vault_x,
        100,
    );
    assert_eq!(r, Err(EscrowError::EscrowLocked));
    assert_eq!(record.state, 3);

    let r = Processor::withdraw(
        &mut record,
        created.address,
        &mut ledger,
        &signers,
        a,
        a_y,
        vault_y,
        250,
    );
    assert_eq!(r, Ok(()));
    assert_eq!(record.state, 4);
    assert_eq!(ledger.balance(&a_y), Some(250));
    assert_eq!(ledger.balance(&vault_y), Some(0));

    let r = Processor::withdraw(
        &mut record,
        created.address,
        &mut ledger,
        &signers,
        b,
        b_x,
        vault_x,
        100,
    );
    assert_eq!(r, Ok(()));
    assert_eq!(record.state, 0);
    assert_eq!(ledger.balance(&b_x), Some(100));
    assert_eq!(ledger.balance(&vault_x), Some(0));
}

#[test]
fn cancel_returns_deposit_net_zero() {
    let (mut ledger, created) = setup();
    let mut record = created.record;
    let a = addr(1);
    let a_x = addr(10);
    let vault_x = record.vault_x;
    let signers = vec![a];

    let r = Processor::deposit(&mut record, &mut ledger, &signers, a, a_x, vault_x, 100);
    assert_eq!(r, Ok(()));
    assert_eq!(record.state, 1);

    let r = Processor::withdraw(
        &mut record,
        created.address,
        &mut ledger,
        &signers,
        a,
        a_x,
        vault_x,
        100,
    );
    assert_eq!(r, Ok(()));
    assert_eq!(record.state, 0);
    assert_eq!(ledger.balance(&a_x), Some(1000));
    assert_eq!(ledger.balance(&vault_x), Some(0));
}

/// The B-then-A completion order reaches the same closed state and the same
/// final balances as A-then-B.
#[test]
fn swap_order_independent() {
    let run = |a_first: bool| -> (u8, Option<u64>, Option<u64>, Option<u64>, Option<u64>) {
        let (mut ledger, created) = setup();
        let mut record = created.record;
        let a = addr(1);
        let b = addr(2);
        let signers = vec![a, b];
        let vault_x = record.vault_x;
        let vault_y = record.vault_y;
        Processor::deposit(&mut record, &mut ledger, &signers, a, addr(10), vault_x, 100)
            .expect("A's deposit");
        Processor::deposit(&mut record, &mut ledger, &signers, b, addr(13), vault_y, 250)
            .expect("B's deposit");
        let withdraw_a = |record: &mut escrow_engine::state::Escrow, ledger: &mut Ledger| {
            Processor::withdraw(
                record,
                created.address,
                ledger,
                &vec![a, b],
                a,
                addr(11),
                vault_y,
                250,
            )
            .expect("A's leg")
        };
        let withdraw_b = |record: &mut escrow_engine::state::Escrow, ledger: &mut Ledger| {
            Processor::withdraw(
                record,
                created.address,
                ledger,
                &vec![a, b],
                b,
                addr(12),
                vault_x,
                100,
            )
            .expect("B's leg")
        };
        if a_first {
            withdraw_a(&mut record, &mut ledger);
            assert_eq!(record.state, 4);
            withdraw_b(&mut record, &mut ledger);
        } else {
            withdraw_b(&mut record, &mut ledger);
            assert_eq!(record.state, 5);
            withdraw_a(&mut record, &mut ledger);
        }
        (
            record.state,
            ledger.balance(&addr(11)),
            ledger.balance(&addr(12)),
            ledger.balance(&vault_x),
            ledger.balance(&vault_y),
        )
    };
    let ab = run(true);
    let ba = run(false);
    assert_eq!(ab, (0, Some(250), Some(100), Some(0), Some(0)));
    assert_eq!(ab, ba);
}

#[test]
fn deposit_rejects_outsiders_and_wrong_amounts() {
    let (mut ledger, created) = setup();
    let mut record = created.record;
    let signers = vec![addr(1), addr(7)];
    let vault_x = record.vault_x;

    let r = Processor::deposit(&mut record, &mut ledger, &signers, addr(7), addr(10), vault_x, 100);
    assert_eq!(r, Err(EscrowError::InvalidParty));

    let r = Processor::deposit(&mut record, &mut ledger, &signers, addr(1), addr(10), vault_x, 99);
    assert_eq!(r, Err(EscrowError::ExpectedAmountMismatch));
    assert_eq!(record.state, 0);
    assert_eq!(ledger.balance(&addr(10)), Some(1000));
}

#[test]
fn deposit_rejects_foreign_vault() {
    let (mut ledger, created) = setup();
    let mut record = created.record;
    let signers = vec![addr(1)];
    // addr(12) is a real account, but not a vault of this escrow.
    let r = Processor::deposit(&mut record, &mut ledger, &signers, addr(1), addr(10), addr(12), 100);
    assert_eq!(r, Err(EscrowError::InvariantViolation));
    assert_eq!(record.state, 0);
}

#[test]
fn unsigned_deposit_is_rejected_by_the_ledger() {
    let (mut ledger, created) = setup();
    let mut record = created.record;
    // B never signed this call.
    let signers = vec![addr(1)];
    let vault_y = record.vault_y;
    let r = Processor::deposit(
        &mut record,
        &mut ledger,
        &signers,
        addr(2),
        addr(13),
        vault_y,
        250,
    );
    assert_eq!(r, Err(EscrowError::TransferRejected));
    assert_eq!(record.state, 0);
    assert_eq!(ledger.balance(&addr(13)), Some(1000));
}

#[test]
fn underfunded_deposit_is_rejected() {
    // An escrow asking more Y than B holds: the ledger refuses the movement
    // and the record stays empty.
    let a = addr(1);
    let b = addr(2);
    let mut ledger = Ledger::new();
    assert!(ledger.add_account(account(addr(13), addr(4), b, 1000)));
    let created = Processor::init(
        &vec![a],
        a,
        b,
        addr(3),
        addr(4),
        100,
        2000,
        addr(9),
        false,
        &mut ledger,
    )
    .expect("init")
    .expect("fresh record");
    let mut record = created.record;
    let vault_y = record.vault_y;
    let r = Processor::deposit(
        &mut record,
        &mut ledger,
        &vec![b],
        b,
        addr(13),
        vault_y,
        2000,
    );
    assert_eq!(r, Err(EscrowError::TransferRejected));
    assert_eq!(record.state, 0);
    assert_eq!(ledger.balance(&addr(13)), Some(1000));
}

#[test]
fn withdraw_on_empty_escrow_is_rejected() {
    let (mut ledger, created) = setup();
    let mut record = created.record;
    let signers = vec![addr(1)];
    let vault_x = record.vault_x;
    let r = Processor::withdraw(
        &mut record,
        created.address,
        &mut ledger,
        &signers,
        addr(1),
        addr(10),
        vault_x,
        100,
    );
    assert_eq!(r, Err(EscrowError::EmptyEscrow));
}

#[test]
fn withdraw_rejects_outsiders_and_wrong_amounts() {
    let (mut ledger, created) = setup();
    let mut record = created.record;
    let signers = vec![addr(1)];
    let vault_x = record.vault_x;
    Processor::deposit(&mut record, &mut ledger, &signers, addr(1), addr(10), vault_x, 100)
        .expect("A's deposit");

    let r = Processor::withdraw(
        &mut record,
        created.address,
        &mut ledger,
        &signers,
        addr(7),
        addr(10),
        vault_x,
        100,
    );
    assert_eq!(r, Err(EscrowError::InvalidParty));

    let r = Processor::withdraw(
        &mut record,
        created.address,
        &mut ledger,
        &signers,
        addr(1),
        addr(10),
        vault_x,
        50,
    );
    assert_eq!(r, Err(EscrowError::ExpectedAmountMismatch));
    assert_eq!(record.state, 1);
}

#[test]
fn premature_claim_of_counterparty_side_is_rejected() {
    let (mut ledger, created) = setup();
    let mut record = created.record;
    let signers = vec![addr(1)];
    let vault_x = record.vault_x;
    let vault_y = record.vault_y;
    Processor::deposit(&mut record, &mut ledger, &signers, addr(1), addr(10), vault_x, 100)
        .expect("A's deposit");
    // A tries to claim B's unfunded side.
    let r = Processor::withdraw(
        &mut record,
        created.address,
        &mut ledger,
        &signers,
        addr(1),
        addr(11),
        vault_y,
        250,
    );
    assert_eq!(r, Err(EscrowError::CounterpartyEscrowDepositIncomplete));
    assert_eq!(record.state, 1);
}

#[test]
fn completed_leg_cannot_be_withdrawn_twice() {
    let (mut ledger, created) = setup();
    let mut record = created.record;
    let a = addr(1);
    let b = addr(2);
    let signers = vec![a, b];
    let vault_x = record.vault_x;
    let vault_y = record.vault_y;
    Processor::deposit(&mut record, &mut ledger, &signers, a, addr(10), vault_x, 100)
        .expect("A's deposit");
    Processor::deposit(&mut record, &mut ledger, &signers, b, addr(13), vault_y, 250)
        .expect("B's deposit");
    Processor::withdraw(
        &mut record,
        created.address,
        &mut ledger,
        &signers,
        a,
        addr(11),
        vault_y,
        250,
    )
    .expect("A's leg");
    assert_eq!(record.state, 4);
    let r = Processor::withdraw(
        &mut record,
        created.address,
        &mut ledger,
        &signers,
        a,
        addr(11),
        vault_y,
        250,
    );
    assert_eq!(r, Err(EscrowError::AlreadyWithdrawn));
    assert_eq!(record.state, 4);
}

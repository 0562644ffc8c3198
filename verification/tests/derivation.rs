use escrow_engine::addr::Addr;
use escrow_engine::ledger::Ledger;
use escrow_engine::processor::{CreatedEscrow, Processor};
use solana_program::pubkey::Pubkey;

fn addr(n: u8) -> Addr {
    Addr::new([n; 32])
}

fn fresh_init(x_mint: u8, y_mint: u8) -> CreatedEscrow {
    let a = addr(1);
    let mut ledger = Ledger::new();
    Processor::init(
        &vec![a],
        a,
        addr(2),
        addr(x_mint),
        addr(y_mint),
        100,
        250,
        addr(9),
        false,
        &mut ledger,
    )
    .expect("init")
    .expect("fresh record")
}

/// The vault and record addresses an `init` hands back are exactly the
/// reference derivation over (mint, A, B) and (vault_x, vault_y, A, B).
#[test]
fn derived_addresses_match_the_reference_derivation() {
    let created = fresh_init(3, 4);
    let pid = Pubkey::new_from_array([9u8; 32]);
    let (vault_x, bump_x) =
        Pubkey::find_program_address(&[&[3u8; 32], &[1u8; 32], &[2u8; 32]], &pid);
    let (vault_y, bump_y) =
        Pubkey::find_program_address(&[&[4u8; 32], &[1u8; 32], &[2u8; 32]], &pid);
    assert_eq!(created.record.vault_x.bytes, vault_x.to_bytes());
    assert_eq!(created.record.bump_vault_x, bump_x);
    assert_eq!(created.record.vault_y.bytes, vault_y.to_bytes());
    assert_eq!(created.record.bump_vault_y, bump_y);
    let (escrow, bump) = Pubkey::find_program_address(
        &[vault_x.as_ref(), vault_y.as_ref(), &[1u8; 32], &[2u8; 32]],
        &pid,
    );
    assert_eq!(created.address.bytes, escrow.to_bytes());
    assert_eq!(created.record.bump, bump);
}

/// The same seed tuple always yields the same addresses and nonces, which is
/// what lets the withdraw path re-derive delegated authority offline.
#[test]
fn derivation_is_deterministic() {
    let first = fresh_init(3, 4);
    let second = fresh_init(3, 4);
    assert!(first.record.vault_x == second.record.vault_x);
    assert!(first.record.vault_y == second.record.vault_y);
    assert!(first.address == second.address);
    assert_eq!(first.record.bump, second.record.bump);
    assert_eq!(first.record.bump_vault_x, second.record.bump_vault_x);
    assert_eq!(first.record.bump_vault_y, second.record.bump_vault_y);
}

/// Different mints custody different vaults.
#[test]
fn different_mints_give_different_vaults() {
    let one = fresh_init(3, 4);
    let other = fresh_init(5, 4);
    assert!(!(one.record.vault_x == other.record.vault_x));
    assert!(one.record.vault_y == other.record.vault_y);
    assert!(!(one.address == other.address));
}

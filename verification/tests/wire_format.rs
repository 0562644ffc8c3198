use escrow_engine::addr::Addr;
use escrow_engine::instruction::EscrowInstruction;
use escrow_engine::state::Escrow;

fn addr(n: u8) -> Addr {
    Addr::new([n; 32])
}

fn sample_record() -> Escrow {
    Escrow {
        party_a: addr(1),
        party_b: addr(2),
        size_a: 100,
        size_b: 250,
        vault_x: addr(5),
        vault_y: addr(6),
        state: 3,
        bump: 254,
        bump_vault_x: 253,
        bump_vault_y: 252,
    }
}

#[test]
fn record_image_is_exactly_148_bytes() {
    let bytes = sample_record().to_bytes();
    assert_eq!(bytes.len(), Escrow::LEN);
    assert_eq!(bytes.len(), 148);
}

#[test]
fn record_fields_sit_at_their_fixed_offsets() {
    let bytes = sample_record().to_bytes();
    assert_eq!(&bytes[0..32], &[1u8; 32]);
    assert_eq!(&bytes[32..64], &[2u8; 32]);
    assert_eq!(&bytes[64..72], &[100, 0, 0, 0, 0, 0, 0, 0]);
    assert_eq!(&bytes[72..80], &[250, 0, 0, 0, 0, 0, 0, 0]);
    assert_eq!(&bytes[80..112], &[5u8; 32]);
    assert_eq!(&bytes[112..144], &[6u8; 32]);
    assert_eq!(&bytes[144..148], &[3, 254, 253, 252]);
}

#[test]
fn record_roundtrips_through_bytes() {
    let record = sample_record();
    let bytes = record.to_bytes();
    let back = Escrow::from_bytes(&bytes).expect("the image must decode");
    assert!(back.party_a == record.party_a);
    assert!(back.party_b == record.party_b);
    assert_eq!(back.size_a, record.size_a);
    assert_eq!(back.size_b, record.size_b);
    assert!(back.vault_x == record.vault_x);
    assert!(back.vault_y == record.vault_y);
    assert_eq!(back.state, record.state);
    assert_eq!(back.bump, record.bump);
    assert_eq!(back.bump_vault_x, record.bump_vault_x);
    assert_eq!(back.bump_vault_y, record.bump_vault_y);
}

#[test]
fn record_decode_rejects_wrong_lengths() {
    assert!(Escrow::from_bytes(&[]).is_none());
    assert!(Escrow::from_bytes(&[0u8; 147]).is_none());
    assert!(Escrow::from_bytes(&[0u8; 149]).is_none());
    assert!(Escrow::from_bytes(&[0u8; 148]).is_some());
}

/// A large amount exercises every byte of the little-endian encoding.
#[test]
fn record_amounts_are_little_endian() {
    let mut record = sample_record();
    record.size_a = 0x0102030405060708;
    let bytes = record.to_bytes();
    assert_eq!(&bytes[64..72], &[8, 7, 6, 5, 4, 3, 2, 1]);
    let back = Escrow::from_bytes(&bytes).expect("decode");
    assert_eq!(back.size_a, 0x0102030405060708);
}

#[test]
fn instruction_images_are_tag_then_amounts() {
    let init = EscrowInstruction::InitEscrow { amount_a: 100, amount_b: 250 };
    assert_eq!(
        init.to_bytes(),
        vec![0, 100, 0, 0, 0, 0, 0, 0, 0, 250, 0, 0, 0, 0, 0, 0, 0]
    );
    let deposit = EscrowInstruction::Deposit { amount: 5 };
    assert_eq!(deposit.to_bytes(), vec![1, 5, 0, 0, 0, 0, 0, 0, 0]);
    let withdraw = EscrowInstruction::Withdraw { amount: 5 };
    assert_eq!(withdraw.to_bytes(), vec![2, 5, 0, 0, 0, 0, 0, 0, 0]);
}

#[test]
fn instruction_roundtrips_through_bytes() {
    let cases = vec![
        EscrowInstruction::InitEscrow { amount_a: 0, amount_b: u64::MAX },
        EscrowInstruction::Deposit { amount: 0x0102030405060708 },
        EscrowInstruction::Withdraw { amount: 1 },
    ];
    for case in cases {
        let bytes = case.to_bytes();
        let back = EscrowInstruction::from_bytes(&bytes).expect("decode");
        match (case, back) {
            (
                EscrowInstruction::InitEscrow { amount_a, amount_b },
                EscrowInstruction::InitEscrow { amount_a: a2, amount_b: b2 },
            ) => {
                assert_eq!(amount_a, a2);
                assert_eq!(amount_b, b2);
            },
            (
                EscrowInstruction::Deposit { amount },
                EscrowInstruction::Deposit { amount: a2 },
            ) => assert_eq!(amount, a2),
            (
                EscrowInstruction::Withdraw { amount },
                EscrowInstruction::Withdraw { amount: a2 },
            ) => assert_eq!(amount, a2),
            _ => panic!("the variant changed in the round trip"),
        }
    }
}

#[test]
fn instruction_decode_rejects_bad_images() {
    // Unknown tag.
    assert!(EscrowInstruction::from_bytes(&[3, 0, 0, 0, 0, 0, 0, 0, 0]).is_none());
    // Truncated.
    assert!(EscrowInstruction::from_bytes(&[1, 5, 0, 0]).is_none());
    assert!(EscrowInstruction::from_bytes(&[]).is_none());
    // Trailing bytes.
    assert!(EscrowInstruction::from_bytes(&[1, 5, 0, 0, 0, 0, 0, 0, 0, 0]).is_none());
    // An init image must carry both amounts.
    assert!(EscrowInstruction::from_bytes(&[0, 5, 0, 0, 0, 0, 0, 0, 0]).is_none());
}

/// The layouts agree with the serialization library the record was
/// historically persisted with: struct fields in order, integers
/// little-endian, enums as a one-byte tag then the payload.
#[test]
fn images_agree_with_borsh() {
    let deposit = EscrowInstruction::Deposit { amount: 5 };
    assert_eq!(deposit.to_bytes(), borsh::to_vec(&(1u8, 5u64)).unwrap());
    let init = EscrowInstruction::InitEscrow { amount_a: 100, amount_b: 250 };
    assert_eq!(init.to_bytes(), borsh::to_vec(&(0u8, 100u64, 250u64)).unwrap());
    let record = sample_record();
    assert_eq!(
        record.to_bytes(),
        borsh::to_vec(&(
            [1u8; 32],
            [2u8; 32],
            100u64,
            250u64,
            [5u8; 32],
            [6u8; 32],
            3u8,
            254u8,
            253u8,
            252u8,
        ))
        .unwrap()
    );
}

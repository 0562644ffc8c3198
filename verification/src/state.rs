//! The persisted escrow record.
//!
//! One record exists per escrow instance. Its parties, sizes and vault
//! addresses are set once at `init` and never change; only `state` moves,
//! along the six-value protocol of [`crate::processor`].

use vstd::prelude::*;
use vstd::bytes::{spec_u64_from_le_bytes, spec_u64_to_le_bytes, lemma_auto_spec_u64_to_from_le_bytes};
use crate::addr::Addr;
use crate::codec::{push_addr, push_u64, read_addr, read_u64};

verus! {

/// The persisted state of one escrow instance.
///
/// `state` takes one of six values: 0 nothing held, 1 only A deposited,
/// 2 only B deposited, 3 both deposited (swap pending), 4 A has claimed B's
/// asset (B's claim pending), 5 B has claimed A's asset (A's claim pending).
/// The three nonces let the deposit and withdraw paths re-derive delegated
/// authority over the record's own address and the two vaults.
#[derive(Clone, Copy, Debug)]
pub struct Escrow {
    pub party_a: Addr,
    pub party_b: Addr,
    pub size_a: u64,
    pub size_b: u64,
    pub vault_x: Addr,
    pub vault_y: Addr,
    pub state: u8,
    pub bump: u8,
    pub bump_vault_x: u8,
    pub bump_vault_y: u8,
}

impl Escrow {
    /// The number of bytes of a persisted record.
    pub const LEN: usize = 148;

    /// A record only ever holds one of the six protocol states.
    pub open spec fn wf(self) -> bool {
        self.state <= 5
    }

    /// The persisted image of the record: fixed-width fields in declaration
    /// order, amounts little-endian.
    pub open spec fn spec_bytes(self) -> Seq<u8> {
        self.party_a@ + self.party_b@ + spec_u64_to_le_bytes(self.size_a) + spec_u64_to_le_bytes(
            self.size_b,
        ) + self.vault_x@ + self.vault_y@ + seq![
            self.state,
            self.bump,
            self.bump_vault_x,
            self.bump_vault_y,
        ]
    }

    /// The persisted image is always exactly [`Escrow::LEN`] bytes.
    pub proof fn lemma_spec_bytes_len(self)
        ensures
            self.spec_bytes().len() == 148,
    {
        lemma_auto_spec_u64_to_from_le_bytes();
    }

    /// Serializes the record to its persisted image.
    pub fn to_bytes(&self) -> (out: Vec<u8>)
        ensures
            out@ == self.spec_bytes(),
    {
        let mut out: Vec<u8> = Vec::new();
        push_addr(&mut out, &self.party_a);
        push_addr(&mut out, &self.party_b);
        push_u64(&mut out, self.size_a);
        push_u64(&mut out, self.size_b);
        push_addr(&mut out, &self.vault_x);
        push_addr(&mut out, &self.vault_y);
        out.push(self.state);
        out.push(self.bump);
        out.push(self.bump_vault_x);
        out.push(self.bump_vault_y);
        assert(out@ =~= self.spec_bytes());
        out
    }

    /// Deserializes a persisted image. Returns `None` exactly when `bytes` is
    /// not [`Escrow::LEN`] bytes long; otherwise every field is read back from
    /// its fixed position.
    pub fn from_bytes(bytes: &[u8]) -> (r: Option<Escrow>)
        ensures
            match r {
                Some(e) => {
                    &&& bytes@.len() == 148
                    &&& e.party_a@ == bytes@.subrange(0, 32)
                    &&& e.party_b@ == bytes@.subrange(32, 64)
                    &&& e.size_a == spec_u64_from_le_bytes(bytes@.subrange(64, 72))
                    &&& e.size_b == spec_u64_from_le_bytes(bytes@.subrange(72, 80))
                    &&& e.vault_x@ == bytes@.subrange(80, 112)
                    &&& e.vault_y@ == bytes@.subrange(112, 144)
                    &&& e.state == bytes@[144]
                    &&& e.bump == bytes@[145]
                    &&& e.bump_vault_x == bytes@[146]
                    &&& e.bump_vault_y == bytes@[147]
                    &&& e.spec_bytes() == bytes@
                },
                None => bytes@.len() != 148,
            },
    {
        if bytes.len() != 148 {
            return None;
        }
        let e = Escrow {
            party_a: read_addr(bytes, 0),
            party_b: read_addr(bytes, 32),
            size_a: read_u64(bytes, 64),
            size_b: read_u64(bytes, 72),
            vault_x: read_addr(bytes, 80),
            vault_y: read_addr(bytes, 112),
            state: bytes[144],
            bump: bytes[145],
            bump_vault_x: bytes[146],
            bump_vault_y: bytes[147],
        };
        proof {
            lemma_auto_spec_u64_to_from_le_bytes();
            assert(e.spec_bytes() =~= bytes@);
        }
        Some(e)
    }

    /// Serialization round-trips: a record read back from its own persisted
    /// image is the record itself.
    pub proof fn lemma_bytes_roundtrip(e1: Escrow, e2: Escrow)
        requires
            e1.spec_bytes() == e2.spec_bytes(),
        ensures
            e1 == e2,
    {
        lemma_auto_spec_u64_to_from_le_bytes();
        let b1 = e1.spec_bytes();
        let b2 = e2.spec_bytes();
        assert(e1.party_a@ =~= b1.subrange(0, 32));
        assert(e2.party_a@ =~= b2.subrange(0, 32));
        assert(e1.party_b@ =~= b1.subrange(32, 64));
        assert(e2.party_b@ =~= b2.subrange(32, 64));
        assert(spec_u64_to_le_bytes(e1.size_a) =~= b1.subrange(64, 72));
        assert(spec_u64_to_le_bytes(e2.size_a) =~= b2.subrange(64, 72));
        assert(spec_u64_to_le_bytes(e1.size_b) =~= b1.subrange(72, 80));
        assert(spec_u64_to_le_bytes(e2.size_b) =~= b2.subrange(72, 80));
        assert(e1.vault_x@ =~= b1.subrange(80, 112));
        assert(e2.vault_x@ =~= b2.subrange(80, 112));
        assert(e1.vault_y@ =~= b1.subrange(112, 144));
        assert(e2.vault_y@ =~= b2.subrange(112, 144));
        assert(e1.size_a == spec_u64_from_le_bytes(spec_u64_to_le_bytes(e1.size_a)));
        assert(e2.size_a == spec_u64_from_le_bytes(spec_u64_to_le_bytes(e2.size_a)));
        assert(e1.size_b == spec_u64_from_le_bytes(spec_u64_to_le_bytes(e1.size_b)));
        assert(e2.size_b == spec_u64_from_le_bytes(spec_u64_to_le_bytes(e2.size_b)));
        assert(e1.party_a.bytes =~= e2.party_a.bytes);
        assert(e1.party_b.bytes =~= e2.party_b.bytes);
        assert(e1.vault_x.bytes =~= e2.vault_x.bytes);
        assert(e1.vault_y.bytes =~= e2.vault_y.bytes);
        assert(e1.state == b1[144] && e2.state == b2[144]);
        assert(e1.bump == b1[145] && e2.bump == b2[145]);
        assert(e1.bump_vault_x == b1[146] && e2.bump_vault_x == b2[146]);
        assert(e1.bump_vault_y == b1[147] && e2.bump_vault_y == b2[147]);
    }
}

} // verus!

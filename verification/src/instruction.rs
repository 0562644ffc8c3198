//! The three operations a caller can request, and their wire format.
//!
//! An instruction is encoded as a one-byte variant tag (0 `InitEscrow`,
//! 1 `Deposit`, 2 `Withdraw`) followed by its amounts as 8 little-endian
//! bytes each. Decoding accepts exactly the encodings this module produces:
//! no trailing bytes, no unknown tag.

use vstd::prelude::*;
use vstd::bytes::{spec_u64_from_le_bytes, spec_u64_to_le_bytes, lemma_auto_spec_u64_to_from_le_bytes};
use crate::codec::{push_u64, read_u64};

verus! {

/// A decoded request against the escrow engine.
#[derive(Clone, Copy, Debug)]
pub enum EscrowInstruction {
    /// Open an escrow: A must deposit `amount_a` of asset X, B `amount_b` of
    /// asset Y.
    InitEscrow { amount_a: u64, amount_b: u64 },
    /// Move `amount` from the depositor into one of the vaults.
    Deposit { amount: u64 },
    /// Move `amount` out of one of the vaults to the withdrawer.
    Withdraw { amount: u64 },
}

impl EscrowInstruction {
    /// The wire image of the instruction: a variant tag, then each amount
    /// little-endian.
    pub open spec fn spec_bytes(self) -> Seq<u8> {
        match self {
            EscrowInstruction::InitEscrow { amount_a, amount_b } => seq![0u8]
                + spec_u64_to_le_bytes(amount_a) + spec_u64_to_le_bytes(amount_b),
            EscrowInstruction::Deposit { amount } => seq![1u8] + spec_u64_to_le_bytes(amount),
            EscrowInstruction::Withdraw { amount } => seq![2u8] + spec_u64_to_le_bytes(amount),
        }
    }

    /// What decoding yields on arbitrary bytes: the unique instruction whose
    /// wire image the bytes are, if there is one.
    pub open spec fn spec_decode(bytes: Seq<u8>) -> Option<EscrowInstruction> {
        if bytes.len() == 17 && bytes[0] == 0 {
            Some(
                EscrowInstruction::InitEscrow {
                    amount_a: spec_u64_from_le_bytes(bytes.subrange(1, 9)),
                    amount_b: spec_u64_from_le_bytes(bytes.subrange(9, 17)),
                },
            )
        } else if bytes.len() == 9 && bytes[0] == 1 {
            Some(EscrowInstruction::Deposit { amount: spec_u64_from_le_bytes(bytes.subrange(1, 9)) })
        } else if bytes.len() == 9 && bytes[0] == 2 {
            Some(
                EscrowInstruction::Withdraw { amount: spec_u64_from_le_bytes(bytes.subrange(1, 9)) },
            )
        } else {
            None
        }
    }

    /// Encodes the instruction to its wire image.
    pub fn to_bytes(&self) -> (out: Vec<u8>)
        ensures
            out@ == self.spec_bytes(),
    {
        let mut out: Vec<u8> = Vec::new();
        match self {
            EscrowInstruction::InitEscrow { amount_a, amount_b } => {
                out.push(0);
                push_u64(&mut out, *amount_a);
                push_u64(&mut out, *amount_b);
            },
            EscrowInstruction::Deposit { amount } => {
                out.push(1);
                push_u64(&mut out, *amount);
            },
            EscrowInstruction::Withdraw { amount } => {
                out.push(2);
                push_u64(&mut out, *amount);
            },
        }
        assert(out@ =~= self.spec_bytes());
        out
    }

    /// Decodes a wire image; rejects anything but an exact encoding.
    pub fn from_bytes(bytes: &[u8]) -> (r: Option<EscrowInstruction>)
        ensures
            r == Self::spec_decode(bytes@),
    {
        let n = bytes.len();
        if n == 17 && bytes[0] == 0 {
            Some(
                EscrowInstruction::InitEscrow {
                    amount_a: read_u64(bytes, 1),
                    amount_b: read_u64(bytes, 9),
                },
            )
        } else if n == 9 && bytes[0] == 1 {
            Some(EscrowInstruction::Deposit { amount: read_u64(bytes, 1) })
        } else if n == 9 && bytes[0] == 2 {
            Some(EscrowInstruction::Withdraw { amount: read_u64(bytes, 1) })
        } else {
            None
        }
    }

    /// Encoding round-trips: decoding the wire image of any instruction gives
    /// that instruction back.
    pub proof fn lemma_bytes_roundtrip(self)
        ensures
            Self::spec_decode(self.spec_bytes()) == Some(self),
    {
        lemma_auto_spec_u64_to_from_le_bytes();
        let b = self.spec_bytes();
        match self {
            EscrowInstruction::InitEscrow { amount_a, amount_b } => {
                assert(b.subrange(1, 9) =~= spec_u64_to_le_bytes(amount_a));
                assert(b.subrange(9, 17) =~= spec_u64_to_le_bytes(amount_b));
            },
            EscrowInstruction::Deposit { amount } => {
                assert(b.subrange(1, 9) =~= spec_u64_to_le_bytes(amount));
            },
            EscrowInstruction::Withdraw { amount } => {
                assert(b.subrange(1, 9) =~= spec_u64_to_le_bytes(amount));
            },
        }
    }

    /// Decoding is exact: whenever decoding succeeds, the bytes are the wire
    /// image of the decoded instruction.
    pub proof fn lemma_decode_exact(bytes: Seq<u8>)
        ensures
            Self::spec_decode(bytes) matches Some(i) ==> i.spec_bytes() == bytes,
    {
        lemma_auto_spec_u64_to_from_le_bytes();
        if bytes.len() == 17 && bytes[0] == 0 {
            let a = spec_u64_from_le_bytes(bytes.subrange(1, 9));
            let b = spec_u64_from_le_bytes(bytes.subrange(9, 17));
            assert(spec_u64_to_le_bytes(a) =~= bytes.subrange(1, 9));
            assert(spec_u64_to_le_bytes(b) =~= bytes.subrange(9, 17));
            assert((EscrowInstruction::InitEscrow { amount_a: a, amount_b: b }).spec_bytes()
                =~= bytes);
        } else if bytes.len() == 9 && (bytes[0] == 1 || bytes[0] == 2) {
            let a = spec_u64_from_le_bytes(bytes.subrange(1, 9));
            assert(spec_u64_to_le_bytes(a) =~= bytes.subrange(1, 9));
            assert((EscrowInstruction::Deposit { amount: a }).spec_bytes() =~= seq![1u8]
                + bytes.subrange(1, 9));
            assert((EscrowInstruction::Withdraw { amount: a }).spec_bytes() =~= seq![2u8]
                + bytes.subrange(1, 9));
            if bytes[0] == 1 {
                assert((EscrowInstruction::Deposit { amount: a }).spec_bytes() =~= bytes);
            } else {
                assert((EscrowInstruction::Withdraw { amount: a }).spec_bytes() =~= bytes);
            }
        }
    }
}

} // verus!

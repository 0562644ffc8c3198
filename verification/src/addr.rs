//! 32-byte account addresses.
//!
//! Every participant of the engine — a party, a mint, a vault, the escrow
//! record itself — is named by an opaque 32-byte address. The engine never
//! inspects an address beyond comparing it for equality and feeding its bytes
//! into the derivation of further addresses.

use vstd::prelude::*;

verus! {

/// An opaque 32-byte account address.
#[derive(Clone, Copy, Debug)]
pub struct Addr {
    pub bytes: [u8; 32],
}

impl View for Addr {
    type V = Seq<u8>;

    open spec fn view(&self) -> Seq<u8> {
        self.bytes@
    }
}

impl Addr {
    pub fn new(bytes: [u8; 32]) -> (r: Addr)
        ensures
            r@ == bytes@,
    {
        Addr { bytes }
    }
}

impl PartialEq for Addr {
    fn eq(&self, other: &Addr) -> (r: bool)
        ensures
            r == (self@ == other@),
    {
        let mut i: usize = 0;
        while i < 32
            invariant
                i <= 32,
                forall|j: int| 0 <= j < i ==> self.bytes[j] == other.bytes[j],
            decreases 32 - i,
        {
            if self.bytes[i] != other.bytes[i] {
                assert(self@[i as int] != other@[i as int]);
                return false;
            }
            i += 1;
        }
        assert(self@ =~= other@);
        true
    }
}

impl Eq for Addr {

}

impl vstd::std_specs::cmp::PartialEqSpecImpl for Addr {
    open spec fn obeys_eq_spec() -> bool {
        true
    }

    open spec fn eq_spec(&self, other: &Addr) -> bool {
        self@ == other@
    }
}

} // verus!

//! Byte-level helpers for the persisted, fixed-width layouts.
//!
//! Records and instructions are persisted as fixed-width fields in declaration
//! order: addresses as their 32 raw bytes, amounts as 8 little-endian bytes,
//! state and nonces as single bytes.

use vstd::prelude::*;
use vstd::bytes::{spec_u64_from_le_bytes, spec_u64_to_le_bytes, u64_from_le_bytes, u64_to_le_bytes};
use crate::addr::Addr;

verus! {

/// Appends the 32 raw bytes of an address.
pub fn push_addr(out: &mut Vec<u8>, a: &Addr)
    ensures
        final(out)@ == old(out)@ + a@,
{
    let mut i: usize = 0;
    while i < 32
        invariant
            i <= 32,
            out@ == old(out)@ + a@.subrange(0, i as int),
        decreases 32 - i,
    {
        out.push(a.bytes[i]);
        assert(out@ =~= old(out)@ + a@.subrange(0, i + 1));
        i += 1;
    }
    assert(a@.subrange(0, 32) =~= a@);
}

/// Appends an amount as 8 little-endian bytes.
pub fn push_u64(out: &mut Vec<u8>, x: u64)
    ensures
        final(out)@ == old(out)@ + spec_u64_to_le_bytes(x),
{
    let mut le: Vec<u8> = u64_to_le_bytes(x);
    out.append(&mut le);
}

/// Reads the 32-byte address stored at `off`.
pub fn read_addr(bytes: &[u8], off: usize) -> (r: Addr)
    requires
        off + 32 <= bytes@.len(),
    ensures
        r@ == bytes@.subrange(off as int, off as int + 32),
{
    let n = bytes.len();
    let mut arr: [u8; 32] = [0; 32];
    let mut i: usize = 0;
    while i < 32
        invariant
            i <= 32,
            off + 32 <= n == bytes@.len(),
            forall|j: int| 0 <= j < i ==> arr@[j] == bytes@[off + j],
        decreases 32 - i,
    {
        arr[i] = bytes[off + i];
        i += 1;
    }
    let r = Addr::new(arr);
    assert(r@ =~= bytes@.subrange(off as int, off as int + 32));
    r
}

/// Reads the little-endian amount stored at `off`.
pub fn read_u64(bytes: &[u8], off: usize) -> (r: u64)
    requires
        off + 8 <= bytes@.len(),
    ensures
        r == spec_u64_from_le_bytes(bytes@.subrange(off as int, off as int + 8)),
{
    let n = bytes.len();
    assert(off + 8 <= n);
    u64_from_le_bytes(&bytes[off..off + 8])
}

} // verus!

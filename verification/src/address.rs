//! Addresses: opaque identifiers of 32 bytes, for tokens and participants.
//! They are only ever compared; the all-zero address means "unset".

use vstd::prelude::*;

verus! {

/// An identifier of a token or of a participant.
pub type Address = [u8; 32];

/// True when every byte of `a` is zero.
pub open spec fn is_zero_bytes(a: Seq<u8>) -> bool {
    forall|i: int| 0 <= i < a.len() ==> a[i] == 0u8
}

/// The address that stands for "unset".
pub fn zero_address() -> (zero: Address)
    ensures
        is_zero_bytes(zero@),
{
    [0u8; 32]
}

/// Whether `a` is the reserved all-zero address.
pub fn is_zero_address(a: &Address) -> (zero: bool)
    ensures
        zero == is_zero_bytes(a@),
{
    let mut i: usize = 0;
    while i < 32
        invariant
            i <= 32,
            forall|j: int| 0 <= j < i ==> a[j] == 0u8,
        decreases 32 - i,
    {
        if a[i] != 0 {
            return false;
        }
        i = i + 1;
    }
    true
}

/// Whether two addresses (or two digests) hold the same 32 bytes.
pub fn same_bytes32(a: &[u8; 32], b: &[u8; 32]) -> (same: bool)
    ensures
        same == (a@ == b@),
{
    let mut i: usize = 0;
    while i < 32
        invariant
            i <= 32,
            forall|j: int| 0 <= j < i ==> a[j] == b[j],
        decreases 32 - i,
    {
        if a[i] != b[i] {
            return false;
        }
        i = i + 1;
    }
    assert(a@ =~= b@);
    true
}

} // verus!

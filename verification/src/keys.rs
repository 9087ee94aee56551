//! Account identities: 32-byte public keys, as the platform hands them out.

use vstd::prelude::*;

verus! {

/// A 32-byte account identity (a public key or a derived record address).
pub type Key = [u8; 32];

/// The all-zero key, used by the platform as the "no owner" placeholder.
pub open spec fn spec_zero_key() -> Seq<u8> {
    Seq::new(32, |i: int| 0u8)
}

/// Build the all-zero key.
pub fn zero_key() -> (r: Key)
    ensures
        r@ == spec_zero_key(),
{
    let r: Key = [0u8; 32];
    proof {
        assert(r@ =~= spec_zero_key());
    }
    r
}

/// Copy the first 32 bytes of a vector into a key.
pub fn key_from_vec(v: &Vec<u8>) -> (r: Key)
    requires
        v@.len() == 32,
    ensures
        r@ == v@,
{
    let mut r: Key = [0u8; 32];
    let mut i: usize = 0;
    while i < 32
        invariant
            0 <= i <= 32,
            v@.len() == 32,
            forall|j: int| 0 <= j < i ==> r@[j] == v@[j],
        decreases 32 - i,
    {
        r[i] = v[i];
        i = i + 1;
    }
    proof {
        assert(r@ =~= v@);
    }
    r
}

/// Copy 32 bytes out of a slice, starting at `start`.
pub fn key_from_slice(data: &[u8], start: usize) -> (r: Key)
    requires
        start + 32 <= data@.len(),
    ensures
        r@ == data@.subrange(start as int, start + 32),
{
    let dlen = data.len();
    let mut r: Key = [0u8; 32];
    let mut i: usize = 0;
    while i < 32
        invariant
            0 <= i <= 32,
            start + 32 <= dlen == data@.len(),
            forall|j: int| 0 <= j < i ==> r@[j] == data@[start + j],
        decreases 32 - i,
    {
        r[i] = *vstd::slice::slice_index_get(data, start + i);
        i = i + 1;
    }
    proof {
        assert(r@ =~= data@.subrange(start as int, start + 32));
    }
    r
}

/// True when the optional key is present and carries these bytes.
pub open spec fn spec_opt_key_is(o: Option<Key>, k: Seq<u8>) -> bool {
    match o {
        Some(x) => x@ == k,
        None => false,
    }
}

/// Test whether the optional key is present and equals the given one.
pub fn opt_key_is(o: &Option<Key>, k: &Key) -> (r: bool)
    ensures
        r == spec_opt_key_is(*o, k@),
{
    match o {
        Some(x) => key_eq(x, k),
        None => false,
    }
}

/// Compare two keys byte for byte.
pub fn key_eq(a: &Key, b: &Key) -> (r: bool)
    ensures
        r == (a@ == b@),
{
    let mut i: usize = 0;
    while i < 32
        invariant
            0 <= i <= 32,
            forall|j: int| 0 <= j < i ==> a@[j] == b@[j],
        decreases 32 - i,
    {
        if a[i] != b[i] {
            return false;
        }
        i = i + 1;
    }
    proof {
        assert(a@ =~= b@);
    }
    true
}

/// True when the key is all zeroes.
pub fn key_is_zero(a: &Key) -> (r: bool)
    ensures
        r == (a@ == spec_zero_key()),
{
    let z = zero_key();
    key_eq(a, &z)
}

} // verus!

//! SHA-256, byte-sequence helpers, and the genesis digest.
//!
//! Every audit proof, validation proof and record address in the engine is
//! a SHA-256 digest of a concatenation of byte strings.  The digest itself
//! is computed by the `sha2` crate; its value on a given input is named by
//! the uninterpreted function [`sha256_of`], and every contract that talks
//! about a digest talks about that name.

use sha2::Digest;
use vstd::prelude::*;

verus! {

/// The SHA-256 digest of a byte sequence, as `sha2` computes it.
pub uninterp spec fn sha256_of(data: Seq<u8>) -> Seq<u8>;

/// Relies on sha2's `Sha256`: one-shot digest of the given bytes.  The
/// digest is a function of the input bytes alone.
#[verifier::external_body]
pub fn sha256(data: &[u8]) -> (r: [u8; 32])
    ensures
        r@ == sha256_of(data@),
{
    let mut hasher = sha2::Sha256::new();
    hasher.update(data);
    hasher.finalize().into()
}

/// Append a slice to a byte vector.
pub fn push_bytes(dst: &mut Vec<u8>, src: &[u8])
    ensures
        final(dst)@ == old(dst)@ + src@,
{
    let mut i: usize = 0;
    while i < src.len()
        invariant
            0 <= i <= src@.len(),
            dst@ == old(dst)@ + src@.subrange(0, i as int),
        decreases src@.len() - i,
    {
        dst.push(src[i]);
        i = i + 1;
        proof {
            assert(dst@ =~= old(dst)@ + src@.subrange(0, i as int));
        }
    }
    proof {
        assert(src@.subrange(0, src@.len() as int) =~= src@);
    }
}

/// Copy `len` bytes out of a slice, starting at `start`.
pub fn bytes_from_slice(data: &[u8], start: usize, len: usize) -> (r: Vec<u8>)
    requires
        start + len <= data@.len(),
    ensures
        r@ == data@.subrange(start as int, start + len),
{
    let dlen = data.len();
    let mut r: Vec<u8> = Vec::new();
    let mut i: usize = 0;
    while i < len
        invariant
            0 <= i <= len,
            start + len <= dlen == data@.len(),
            r@.len() == i,
            forall|j: int| 0 <= j < i ==> r@[j] == data@[start + j],
        decreases len - i,
    {
        r.push(*vstd::slice::slice_index_get(data, start + i));
        i = i + 1;
    }
    proof {
        assert(r@ =~= data@.subrange(start as int, start + len));
    }
    r
}

/// Append the eight little-endian bytes of a `u64` to a byte vector.
pub fn push_u64_le(dst: &mut Vec<u8>, x: u64)
    ensures
        final(dst)@ == old(dst)@ + vstd::bytes::spec_u64_to_le_bytes(x),
{
    let bytes = vstd::bytes::u64_to_le_bytes(x);
    push_bytes(dst, bytes.as_slice());
}

/// The preimage of the genesis digest.
pub open spec fn spec_genesis_preimage() -> Seq<u8> {
    seq![68u8, 65, 67, 95, 71, 69, 78, 69, 83, 73, 83]
}

/// The digest every audit chain starts from.
pub open spec fn spec_genesis_hash() -> Seq<u8> {
    sha256_of(spec_genesis_preimage())
}

/// Compute the genesis digest.
pub fn genesis_hash() -> (r: [u8; 32])
    ensures
        r@ == spec_genesis_hash(),
{
    let preimage: Vec<u8> = vec![68u8, 65, 67, 95, 71, 69, 78, 69, 83, 73, 83];
    proof {
        assert(preimage@ =~= spec_genesis_preimage());
    }
    sha256(preimage.as_slice())
}

} // verus!

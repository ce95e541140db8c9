//! Fixed-size digests and the digest function. A `HashValue` is the 512-bit
//! output of SHA3-512; equality is byte-exact.

use vstd::prelude::*;

use crate::encode::{bytes_eq, copy_bytes};

verus! {

/// The SHA3-512 digest of a byte sequence. The digest is a pure function of
/// its input alone, so the value is named here rather than modelled; nothing
/// in this crate states what it is on given bytes.
pub uninterp spec fn digest_of(bytes: Seq<u8>) -> Seq<u8>;

/// The 64 zero bytes hashed in place of a predecessor when a revision has
/// none, so genesis and non-genesis revisions hash over the same width.
pub open spec fn zero_hash_bytes() -> Seq<u8> {
    Seq::new(64, |i: int| 0u8)
}

/// Relies on `sha3::Sha3_512` through `digest::Digest::digest`: the 64-byte
/// SHA3-512 digest of the input, a deterministic function of the bytes alone.
#[verifier::external_body]
fn sha3_512(bytes: &Vec<u8>) -> (r: Vec<u8>)
    ensures
        r@ == digest_of(bytes@),
        r@.len() == 64,
{
    <sha3::Sha3_512 as sha3::Digest>::digest(bytes.as_slice()).to_vec()
}

/// A fixed-length 512-bit binary digest, immutable once computed.
pub struct HashValue {
    pub bytes: Vec<u8>,
}

impl View for HashValue {
    type V = Seq<u8>;

    open spec fn view(&self) -> Seq<u8> {
        self.bytes@
    }
}

impl HashValue {
    /// A well-formed digest holds exactly 64 bytes.
    pub open spec fn wf(self) -> bool {
        self@.len() == 64
    }

    /// Hashes `input` with the chain's digest function.
    pub fn digest(input: &Vec<u8>) -> (h: HashValue)
        ensures
            h@ == digest_of(input@),
            h.wf(),
    {
        HashValue { bytes: sha3_512(input) }
    }

    /// The all-zero sentinel digest.
    pub fn zero() -> (h: HashValue)
        ensures
            h@ == zero_hash_bytes(),
            h.wf(),
    {
        let mut bytes: Vec<u8> = Vec::new();
        let mut i: usize = 0;
        while i < 64
            invariant
                i <= 64,
                bytes@ =~= zero_hash_bytes().subrange(0, i as int),
            decreases 64 - i,
        {
            bytes.push(0u8);
            proof {
                assert(bytes@ =~= zero_hash_bytes().subrange(0, i as int + 1));
            }
            i = i + 1;
        }
        proof {
            assert(zero_hash_bytes().subrange(0, 64) =~= zero_hash_bytes());
        }
        HashValue { bytes }
    }

    /// Byte-exact equality.
    pub fn equals(&self, other: &HashValue) -> (r: bool)
        ensures
            r == (self@ == other@),
    {
        bytes_eq(&self.bytes, &other.bytes)
    }

    /// A fresh `HashValue` holding the same bytes.
    pub fn duplicate(&self) -> (h: HashValue)
        ensures
            h@ == self@,
    {
        HashValue { bytes: copy_bytes(&self.bytes) }
    }
}

/// The byte view of an optional predecessor digest.
pub open spec fn opt_hash_view(o: Option<HashValue>) -> Option<Seq<u8>> {
    match o {
        Option::Some(h) => Option::Some(h@),
        Option::None => Option::None,
    }
}

} // verus!

//! The canonical byte layout hashed by the chain: fixed-width integers and
//! length-prefixed blocks. Any change here silently breaks verification of
//! previously issued chains, so the layout is a versioned format contract.

use vstd::prelude::*;

verus! {

/// Big-endian byte layout of a 64-bit value: the fixed-width encoding used
/// for timestamps and for every length prefix.
pub open spec fn u64_be_bytes(x: u64) -> Seq<u8> {
    seq![
        (x >> 56) as u8,
        (x >> 48) as u8,
        (x >> 40) as u8,
        (x >> 32) as u8,
        (x >> 24) as u8,
        (x >> 16) as u8,
        (x >> 8) as u8,
        x as u8,
    ]
}

/// A block of bytes preceded by its big-endian 64-bit length.
pub open spec fn len_block(b: Seq<u8>) -> Seq<u8> {
    u64_be_bytes(b.len() as u64) + b
}

/// The UTF-8 bytes of a string, length-prefixed.
pub open spec fn str_block(s: Seq<char>) -> Seq<u8> {
    len_block(vstd::utf8::encode_utf8(s))
}

/// Appends the big-endian bytes of `x`.
pub fn push_u64_be(out: &mut Vec<u8>, x: u64)
    ensures
        final(out)@ == old(out)@ + u64_be_bytes(x),
{
    out.push((x >> 56) as u8);
    out.push((x >> 48) as u8);
    out.push((x >> 40) as u8);
    out.push((x >> 32) as u8);
    out.push((x >> 24) as u8);
    out.push((x >> 16) as u8);
    out.push((x >> 8) as u8);
    out.push(x as u8);
    proof {
        assert(out@ =~= old(out)@ + u64_be_bytes(x));
    }
}

/// Appends all of `b`.
pub fn push_bytes(out: &mut Vec<u8>, b: &Vec<u8>)
    ensures
        final(out)@ == old(out)@ + b@,
{
    let ghost orig: Seq<u8> = out@;
    let mut i: usize = 0;
    while i < b.len()
        invariant
            i <= b.len(),
            out@ == orig + b@.subrange(0, i as int),
        decreases b.len() - i,
    {
        out.push(b[i]);
        proof {
            assert(out@ =~= orig + b@.subrange(0, i as int + 1));
        }
        i = i + 1;
    }
    proof {
        assert(b@.subrange(0, b@.len() as int) =~= b@);
    }
}

/// Appends `b` as a length-prefixed block.
pub fn push_len_block(out: &mut Vec<u8>, b: &Vec<u8>)
    ensures
        final(out)@ == old(out)@ + len_block(b@),
{
    push_u64_be(out, b.len() as u64);
    push_bytes(out, b);
    proof {
        assert(out@ =~= old(out)@ + len_block(b@));
    }
}

/// Appends the UTF-8 bytes of `s` as a length-prefixed block.
pub fn push_str_block(out: &mut Vec<u8>, s: &String)
    ensures
        final(out)@ == old(out)@ + str_block(s@),
{
    let bytes: Vec<u8> = s.as_str().as_bytes_vec();
    push_len_block(out, &bytes);
}

/// Byte-exact equality of two byte vectors.
pub fn bytes_eq(a: &Vec<u8>, b: &Vec<u8>) -> (r: bool)
    ensures
        r == (a@ == b@),
{
    if a.len() != b.len() {
        return false;
    }
    let mut i: usize = 0;
    while i < a.len()
        invariant
            i <= a.len(),
            a@.len() == b@.len(),
            forall|j: int| 0 <= j < i ==> a@[j] == b@[j],
        decreases a.len() - i,
    {
        if a[i] != b[i] {
            return false;
        }
        i = i + 1;
    }
    proof {
        assert(a@ =~= b@);
    }
    true
}

/// A fresh vector holding the same bytes as `src`.
pub fn copy_bytes(src: &Vec<u8>) -> (r: Vec<u8>)
    ensures
        r@ == src@,
{
    let mut out: Vec<u8> = Vec::new();
    push_bytes(&mut out, src);
    proof {
        assert(out@ =~= src@);
    }
    out
}

} // verus!

//! Revision payloads and their canonical serialization: the exact byte
//! layout that the content hash is computed over. The layout is a closed,
//! versioned format: a one-byte variant tag followed by length-prefixed
//! blocks, total and unambiguous over both variants.

use vstd::prelude::*;
use crate::encode::{len_block, str_block, u64_be_bytes, push_len_block, push_str_block, push_u64_be};
use crate::hashes::{digest_of, HashValue};

verus! {

/// Raw file bytes with a filename, declared size and free-text comment.
pub struct FileContent {
    pub data: Vec<u8>,
    pub filename: String,
    pub size: u64,
    pub comment: String,
}

/// The payload of one revision: raw file bytes or structured fields,
/// mutually exclusive. Structured fields are hashed in the order given;
/// that order is part of the format, so callers wanting a canonical order
/// sort by key before submitting.
pub enum ContentPayload {
    File(FileContent),
    Structured(Vec<(String, String)>),
}

/// A payload whose declared lengths agree with its actual payload size.
pub open spec fn payload_ok(p: ContentPayload) -> bool {
    match p {
        ContentPayload::File(f) => f.size == f.data@.len(),
        ContentPayload::Structured(_) => true,
    }
}

/// Canonical bytes of a field list: each name and value as a
/// length-prefixed UTF-8 block, in sequence order.
pub open spec fn canon_fields(fs: Seq<(String, String)>) -> Seq<u8>
    decreases fs.len(),
{
    if fs.len() == 0 {
        Seq::<u8>::empty()
    } else {
        canon_fields(fs.drop_last()) + str_block(fs.last().0@) + str_block(fs.last().1@)
    }
}

/// Canonical serialization of a payload: tag byte 0 for a file (filename,
/// data, comment as length-prefixed blocks), tag byte 1 for structured
/// fields (field count, then each pair).
pub open spec fn canon_payload(p: ContentPayload) -> Seq<u8> {
    match p {
        ContentPayload::File(f) => seq![0u8] + str_block(f.filename@) + len_block(f.data@)
            + str_block(f.comment@),
        ContentPayload::Structured(fields) => seq![1u8] + u64_be_bytes(fields@.len() as u64)
            + canon_fields(fields@),
    }
}

/// The content hash of a payload.
pub open spec fn spec_content_hash(p: ContentPayload) -> Seq<u8> {
    digest_of(canon_payload(p))
}

/// Serializes a payload into its canonical bytes.
pub fn canon_payload_bytes(p: &ContentPayload) -> (r: Vec<u8>)
    ensures
        r@ == canon_payload(*p),
{
    let mut out: Vec<u8> = Vec::new();
    match p {
        ContentPayload::File(f) => {
            out.push(0u8);
            push_str_block(&mut out, &f.filename);
            push_len_block(&mut out, &f.data);
            push_str_block(&mut out, &f.comment);
            proof {
                assert(out@ =~= canon_payload(*p));
            }
        }
        ContentPayload::Structured(fields) => {
            out.push(1u8);
            push_u64_be(&mut out, fields.len() as u64);
            let ghost head: Seq<u8> = seq![1u8] + u64_be_bytes(fields@.len() as u64);
            proof {
                assert(out@ =~= head + canon_fields(fields@.subrange(0, 0)));
            }
            let mut i: usize = 0;
            while i < fields.len()
                invariant
                    i <= fields.len(),
                    out@ == head + canon_fields(fields@.subrange(0, i as int)),
                decreases fields.len() - i,
            {
                push_str_block(&mut out, &fields[i].0);
                push_str_block(&mut out, &fields[i].1);
                proof {
                    let pre = fields@.subrange(0, i as int);
                    let post = fields@.subrange(0, i as int + 1);
                    assert(post.drop_last() =~= pre);
                    assert(post.last() == fields@[i as int]);
                    assert(out@ =~= head + canon_fields(post));
                }
                i = i + 1;
            }
            proof {
                assert(fields@.subrange(0, fields@.len() as int) =~= fields@);
            }
        }
    }
    out
}

/// The payload of one revision together with its content hash.
pub struct RevisionContent {
    pub payload: ContentPayload,
    pub content_hash: HashValue,
}

} // verus!

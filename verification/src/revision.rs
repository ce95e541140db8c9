//! One recorded submission within a chain: its content, metadata and the
//! three digests stamped by the builder — the content hash over the
//! canonical payload bytes, the metadata hash folding in domain and
//! timestamp, and the verification hash binding it all to the predecessor.

use vstd::prelude::*;
use crate::encode::{str_block, u64_be_bytes, push_str_block, push_u64_be, push_bytes};
use crate::content::{canon_payload, payload_ok, spec_content_hash, canon_payload_bytes,
    ContentPayload, RevisionContent};
use crate::hashes::{digest_of, opt_hash_view, zero_hash_bytes, HashValue};

verus! {

/// A detached signature over a revision: a trust-extension point kept out
/// of the hash computation, present so the chain format stays
/// forward-compatible.
pub struct Signature {
    pub signature: Vec<u8>,
    pub public_key: Vec<u8>,
}

/// An external witness attestation: a trust-extension point like
/// `Signature`, opaque to the core algorithms.
pub struct WitnessRecord {
    pub witness_event: Vec<u8>,
}

/// Chain-position metadata of one revision. `previous_verification_hash`
/// is present exactly when the revision is not the first of its chain.
pub struct RevisionMetadata {
    pub domain_id: String,
    pub time_stamp: u64,
    pub previous_verification_hash: Option<HashValue>,
    pub metadata_hash: HashValue,
    pub verification_hash: HashValue,
}

/// One recorded submission: content plus metadata, with optional
/// signature and witness extension points.
pub struct Revision {
    pub content: RevisionContent,
    pub metadata: RevisionMetadata,
    pub signature: Option<Signature>,
    pub witness: Option<WitnessRecord>,
}

/// The bytes hashed into the metadata hash: the domain identifier as a
/// length-prefixed block, the timestamp as fixed-width seconds, then the
/// content hash.
pub open spec fn metadata_bytes(domain_id: Seq<char>, time_stamp: u64, content_hash: Seq<u8>) -> Seq<
    u8,
> {
    str_block(domain_id) + u64_be_bytes(time_stamp) + content_hash
}

/// The metadata hash over a domain, timestamp and content hash.
pub open spec fn spec_metadata_hash(
    domain_id: Seq<char>,
    time_stamp: u64,
    content_hash: Seq<u8>,
) -> Seq<u8> {
    digest_of(metadata_bytes(domain_id, time_stamp, content_hash))
}

/// The bytes hashed into the verification hash: the metadata hash followed
/// by the predecessor's verification hash, or by the fixed zero sentinel of
/// the same width when there is none, so genesis and non-genesis revisions
/// hash over a fixed-width structure.
pub open spec fn verification_bytes(metadata_hash: Seq<u8>, prev: Option<Seq<u8>>) -> Seq<u8> {
    metadata_hash + match prev {
        Option::Some(p) => p,
        Option::None => zero_hash_bytes(),
    }
}

/// The verification hash over a metadata hash and an optional predecessor.
pub open spec fn spec_verification_hash(metadata_hash: Seq<u8>, prev: Option<Seq<u8>>) -> Seq<u8> {
    digest_of(verification_bytes(metadata_hash, prev))
}

/// What `build` stamps: the revision carries exactly the given payload,
/// domain, timestamp and predecessor, its three hashes are the digests the
/// format prescribes, and the extension points are empty.
pub open spec fn built_from(
    r: Revision,
    payload: ContentPayload,
    domain_id: Seq<char>,
    time_stamp: u64,
    prev: Option<Seq<u8>>,
) -> bool {
    &&& r.content.payload == payload
    &&& r.content.content_hash@ == spec_content_hash(payload)
    &&& r.metadata.domain_id@ == domain_id
    &&& r.metadata.time_stamp == time_stamp
    &&& opt_hash_view(r.metadata.previous_verification_hash) == prev
    &&& r.metadata.metadata_hash@ == spec_metadata_hash(
        domain_id,
        time_stamp,
        spec_content_hash(payload),
    )
    &&& r.metadata.verification_hash@ == spec_verification_hash(
        spec_metadata_hash(domain_id, time_stamp, spec_content_hash(payload)),
        prev,
    )
    &&& r.signature is None
    &&& r.witness is None
}

/// Rejections of a single submission.
#[derive(Clone, Copy, Debug, PartialEq, Eq, Structural)]
pub enum ChainError {
    /// The payload's declared lengths disagree with its actual size.
    MalformedContent,
    /// An existing chain failed its last-link self-check before an append.
    ChainCorrupt,
}

/// Constructs one revision from submitted content, prior chain state and a
/// timestamp, computing and stamping its three hashes. Pure: the result is
/// a function of the arguments alone. Rejects a payload whose declared
/// size disagrees with its data, and only such a payload.
pub fn build(
    payload: ContentPayload,
    domain_id: String,
    time_stamp: u64,
    previous_verification_hash: Option<HashValue>,
) -> (r: Result<Revision, ChainError>)
    ensures
        match r {
            Result::Ok(rev) => payload_ok(payload) && built_from(
                rev,
                payload,
                domain_id@,
                time_stamp,
                opt_hash_view(previous_verification_hash),
            ),
            Result::Err(e) => e == ChainError::MalformedContent && !payload_ok(payload),
        },
{
    let size_ok: bool = match &payload {
        ContentPayload::File(f) => f.size == f.data.len() as u64,
        ContentPayload::Structured(_) => true,
    };
    if !size_ok {
        return Result::Err(ChainError::MalformedContent);
    }
    let canon: Vec<u8> = canon_payload_bytes(&payload);
    let content_hash: HashValue = HashValue::digest(&canon);

    let mut meta_buf: Vec<u8> = Vec::new();
    push_str_block(&mut meta_buf, &domain_id);
    push_u64_be(&mut meta_buf, time_stamp);
    push_bytes(&mut meta_buf, &content_hash.bytes);
    proof {
        assert(meta_buf@ =~= metadata_bytes(domain_id@, time_stamp, content_hash@));
    }
    let metadata_hash: HashValue = HashValue::digest(&meta_buf);

    let mut veri_buf: Vec<u8> = Vec::new();
    push_bytes(&mut veri_buf, &metadata_hash.bytes);
    match &previous_verification_hash {
        Option::Some(p) => {
            push_bytes(&mut veri_buf, &p.bytes);
        }
        Option::None => {
            let zero: HashValue = HashValue::zero();
            push_bytes(&mut veri_buf, &zero.bytes);
        }
    }
    proof {
        assert(veri_buf@ =~= verification_bytes(
            metadata_hash@,
            opt_hash_view(previous_verification_hash),
        ));
    }
    let verification_hash: HashValue = HashValue::digest(&veri_buf);

    Result::Ok(
        Revision {
            content: RevisionContent { payload, content_hash },
            metadata: RevisionMetadata {
                domain_id,
                time_stamp,
                previous_verification_hash,
                metadata_hash,
                verification_hash,
            },
            signature: Option::None,
            witness: Option::None,
        },
    )
}

/// Building twice from the same payload, domain, timestamp and predecessor
/// yields the same content, metadata and verification hashes.
pub proof fn lemma_build_deterministic(
    r1: Revision,
    r2: Revision,
    payload: ContentPayload,
    domain_id: Seq<char>,
    time_stamp: u64,
    prev: Option<Seq<u8>>,
)
    requires
        built_from(r1, payload, domain_id, time_stamp, prev),
        built_from(r2, payload, domain_id, time_stamp, prev),
    ensures
        r1.content.content_hash@ == r2.content.content_hash@,
        r1.metadata.metadata_hash@ == r2.metadata.metadata_hash@,
        r1.metadata.verification_hash@ == r2.metadata.verification_hash@,
{
}

} // verus!

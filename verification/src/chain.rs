//! The hash chain itself: an ordered sequence of revisions for one logical
//! document, mutated only through `append` and re-checked end-to-end by
//! `verify`, which reports the first point at which trust breaks down.

use vstd::prelude::*;
use crate::content::{payload_ok, spec_content_hash, canon_payload_bytes, ContentPayload};
use crate::encode::{push_bytes, push_str_block, push_u64_be};
use crate::hashes::{digest_of, opt_hash_view, HashValue};
use crate::revision::{build, built_from, metadata_bytes, spec_metadata_hash,
    spec_verification_hash, verification_bytes, ChainError, Revision};

verus! {

/// Why a chain failed verification.
#[derive(Clone, Copy, Debug, PartialEq, Eq, Structural)]
pub enum InvalidReason {
    /// A stored hash does not match the one recomputed from stored fields.
    HashMismatch,
    /// A revision's recorded predecessor is not the previous revision's
    /// verification hash.
    LinkBroken,
    /// The chain's bookkeeping (height, genesis hash, or a revision's index
    /// key) disagrees with its revisions.
    StructuralInconsistency,
}

/// The outcome of verifying a chain: valid, or the lowest index at which
/// it fails and why.
#[derive(Clone, Copy, Debug, PartialEq, Eq, Structural)]
pub enum VerificationResult {
    Valid,
    Invalid { at_index: usize, reason: InvalidReason },
}

/// The hashes a correctly stamped revision carries, each recomputable from
/// its stored fields alone.
pub open spec fn rev_hashes_ok(r: Revision) -> bool {
    &&& r.content.content_hash@ == spec_content_hash(r.content.payload)
    &&& r.metadata.metadata_hash@ == spec_metadata_hash(
        r.metadata.domain_id@,
        r.metadata.time_stamp,
        r.content.content_hash@,
    )
    &&& r.metadata.verification_hash@ == spec_verification_hash(
        r.metadata.metadata_hash@,
        opt_hash_view(r.metadata.previous_verification_hash),
    )
}

/// An ordered sequence of revisions for one logical document, keyed by
/// each revision's verification hash. Insertion order is the chain order.
pub struct HashChain {
    pub genesis_hash: HashValue,
    pub domain_id: String,
    pub title: String,
    pub namespace: u64,
    pub chain_height: u64,
    pub revisions: Vec<(HashValue, Revision)>,
}

impl HashChain {
    /// The revision at position `i`.
    pub open spec fn rev_at(self, i: int) -> Revision {
        self.revisions@[i].1
    }

    /// The index key stored at position `i`.
    pub open spec fn key_at(self, i: int) -> Seq<u8> {
        self.revisions@[i].0@
    }

    /// The verification hash stored at position `i`.
    pub open spec fn vh_at(self, i: int) -> Seq<u8> {
        self.revisions@[i].1.metadata.verification_hash@
    }

    /// Linkage at position `i`: the first revision records no predecessor;
    /// every later one records exactly its predecessor's verification hash.
    pub open spec fn link_ok(self, i: int) -> bool {
        if i == 0 {
            self.rev_at(0).metadata.previous_verification_hash is None
        } else {
            match self.rev_at(i).metadata.previous_verification_hash {
                Option::Some(p) => p@ == self.vh_at(i - 1),
                Option::None => false,
            }
        }
    }

    /// The index key at `i` equals that revision's own verification hash.
    pub open spec fn key_ok(self, i: int) -> bool {
        self.key_at(i) == self.vh_at(i)
    }

    /// The first finding at position `i`, in the order the walk checks:
    /// linkage, then the recomputed hashes, then the index key.
    pub open spec fn entry_issue(self, i: int) -> Option<InvalidReason> {
        if !self.link_ok(i) {
            Option::Some(InvalidReason::LinkBroken)
        } else if !rev_hashes_ok(self.rev_at(i)) {
            Option::Some(InvalidReason::HashMismatch)
        } else if !self.key_ok(i) {
            Option::Some(InvalidReason::StructuralInconsistency)
        } else {
            Option::None
        }
    }

    /// Chain-level bookkeeping: the height counts the revisions, and the
    /// genesis hash is the first revision's verification hash.
    pub open spec fn structure_ok(self) -> bool {
        &&& self.chain_height == self.revisions@.len()
        &&& (self.revisions@.len() > 0 ==> self.genesis_hash@ == self.vh_at(0))
    }

    /// The verdict of the walk from position `i` on: the first finding at
    /// or after `i`, or the chain-level bookkeeping check once the walk is
    /// done (reported at index 0).
    pub open spec fn scan(self, i: int) -> VerificationResult
        decreases self.revisions@.len() - i,
    {
        if i < 0 || i >= self.revisions@.len() {
            if self.structure_ok() {
                VerificationResult::Valid
            } else {
                VerificationResult::Invalid {
                    at_index: 0,
                    reason: InvalidReason::StructuralInconsistency,
                }
            }
        } else {
            match self.entry_issue(i) {
                Option::Some(reason) => VerificationResult::Invalid { at_index: i as usize, reason },
                Option::None => self.scan(i + 1),
            }
        }
    }

    /// What `verify` returns: the whole walk, index 0 first.
    pub open spec fn spec_verify(self) -> VerificationResult {
        self.scan(0)
    }

    /// A chain that withstands verification: every revision links to its
    /// predecessor, carries exactly the hashes recomputable from its stored
    /// fields, sits under its own verification hash, and the bookkeeping
    /// agrees.
    pub open spec fn chain_ok(self) -> bool {
        &&& self.structure_ok()
        &&& forall|i: int| 0 <= i < self.revisions@.len() ==> self.entry_issue(i) is None
    }

    /// The lightweight self-check `append` trusts: an empty chain, or a
    /// last entry whose index key equals its own verification hash.
    pub open spec fn last_link_ok(self) -> bool {
        self.revisions@.len() == 0 || self.key_ok(self.revisions@.len() - 1)
    }
}

impl HashChain {
    /// A chain created on first submission for a new document identifier:
    /// no revisions yet, height zero, the genesis hash still the zero
    /// sentinel until the first append assigns it.
    pub fn new(domain_id: String, title: String, namespace: u64) -> (c: HashChain)
        ensures
            c.revisions@.len() == 0,
            c.chain_height == 0,
            c.chain_ok(),
            c.domain_id@ == domain_id@,
            c.title@ == title@,
            c.namespace == namespace,
    {
        HashChain {
            genesis_hash: HashValue::zero(),
            domain_id,
            title,
            namespace,
            chain_height: 0,
            revisions: Vec::new(),
        }
    }

    /// Walks the revisions in order, recomputing every hash from stored
    /// fields and checking linkage, and returns the lowest index at which
    /// the chain fails, or `Valid`. A pure read: the chain is untouched.
    pub fn verify(&self) -> (r: VerificationResult)
        ensures
            r == self.spec_verify(),
            (r == VerificationResult::Valid) <==> self.chain_ok(),
    {
        proof {
            lemma_scan_valid_iff(*self, 0);
        }
        let n: usize = self.revisions.len();
        let mut i: usize = 0;
        while i < n
            invariant
                n == self.revisions@.len(),
                i <= n,
                forall|j: int| 0 <= j < i ==> self.entry_issue(j) is None,
            decreases n - i,
        {
            let rev: &Revision = &self.revisions[i].1;
            let link_ok: bool = match &rev.metadata.previous_verification_hash {
                Option::Some(p) => {
                    if i == 0 {
                        false
                    } else {
                        p.equals(&self.revisions[i - 1].1.metadata.verification_hash)
                    }
                },
                Option::None => i == 0,
            };
            if !link_ok {
                proof {
                    lemma_scan_prefix(*self, i as int);
                    assert(!self.link_ok(i as int));
                }
                return VerificationResult::Invalid {
                    at_index: i,
                    reason: InvalidReason::LinkBroken,
                };
            }
            let canon: Vec<u8> = canon_payload_bytes(&rev.content.payload);
            let content_hash: HashValue = HashValue::digest(&canon);
            if !content_hash.equals(&rev.content.content_hash) {
                proof {
                    lemma_scan_prefix(*self, i as int);
                    assert(!rev_hashes_ok(self.rev_at(i as int)));
                }
                return VerificationResult::Invalid {
                    at_index: i,
                    reason: InvalidReason::HashMismatch,
                };
            }
            let mut meta_buf: Vec<u8> = Vec::new();
            push_str_block(&mut meta_buf, &rev.metadata.domain_id);
            push_u64_be(&mut meta_buf, rev.metadata.time_stamp);
            push_bytes(&mut meta_buf, &rev.content.content_hash.bytes);
            proof {
                assert(meta_buf@ =~= metadata_bytes(
                    rev.metadata.domain_id@,
                    rev.metadata.time_stamp,
                    rev.content.content_hash@,
                ));
            }
            let metadata_hash: HashValue = HashValue::digest(&meta_buf);
            if !metadata_hash.equals(&rev.metadata.metadata_hash) {
                proof {
                    lemma_scan_prefix(*self, i as int);
                    assert(!rev_hashes_ok(self.rev_at(i as int)));
                }
                return VerificationResult::Invalid {
                    at_index: i,
                    reason: InvalidReason::HashMismatch,
                };
            }
            let mut veri_buf: Vec<u8> = Vec::new();
            push_bytes(&mut veri_buf, &rev.metadata.metadata_hash.bytes);
            match &rev.metadata.previous_verification_hash {
                Option::Some(p) => {
                    push_bytes(&mut veri_buf, &p.bytes);
                },
                Option::None => {
                    let zero: HashValue = HashValue::zero();
                    push_bytes(&mut veri_buf, &zero.bytes);
                },
            }
            proof {
                assert(veri_buf@ =~= verification_bytes(
                    rev.metadata.metadata_hash@,
                    opt_hash_view(rev.metadata.previous_verification_hash),
                ));
            }
            let verification_hash: HashValue = HashValue::digest(&veri_buf);
            if !verification_hash.equals(&rev.metadata.verification_hash) {
                proof {
                    lemma_scan_prefix(*self, i as int);
                    assert(!rev_hashes_ok(self.rev_at(i as int)));
                }
                return VerificationResult::Invalid {
                    at_index: i,
                    reason: InvalidReason::HashMismatch,
                };
            }
            if !self.revisions[i].0.equals(&rev.metadata.verification_hash) {
                proof {
                    lemma_scan_prefix(*self, i as int);
                    assert(!self.key_ok(i as int));
                }
                return VerificationResult::Invalid {
                    at_index: i,
                    reason: InvalidReason::StructuralInconsistency,
                };
            }
            proof {
                assert(self.entry_issue(i as int) is None);
            }
            i = i + 1;
        }
        proof {
            lemma_scan_prefix(*self, n as int);
        }
        let mut structural: bool = self.chain_height == (n as u64);
        if structural && n > 0 {
            structural = self.genesis_hash.equals(&self.revisions[0].1.metadata.verification_hash);
        }
        if structural {
            proof {
                assert(self.structure_ok());
            }
            VerificationResult::Valid
        } else {
            proof {
                assert(!self.structure_ok());
            }
            VerificationResult::Invalid { at_index: 0, reason: InvalidReason::StructuralInconsistency }
        }
    }

    /// Appends one submission: self-checks the current last entry, builds
    /// the new revision against the current last verification hash, and
    /// commits it. Rejects a corrupt chain before trusting it as the new
    /// predecessor, and a malformed payload; a rejected chain is left
    /// untouched. Appending to a chain that withstands verification yields
    /// a chain that still does.
    pub fn append(&mut self, payload: ContentPayload, domain_id: String, time_stamp: u64) -> (r:
        Result<(), ChainError>)
        requires
            old(self).chain_height == old(self).revisions@.len(),
        ensures
            match r {
                Result::Ok(_) => {
                    &&& old(self).last_link_ok()
                    &&& payload_ok(payload)
                    &&& final(self).revisions@.len() == old(self).revisions@.len() + 1
                    &&& final(self).revisions@.subrange(0, old(self).revisions@.len() as int)
                        == old(self).revisions@
                    &&& final(self).chain_height == old(self).chain_height + 1
                    &&& final(self).chain_height == final(self).revisions@.len()
                    &&& built_from(
                        final(self).revisions@.last().1,
                        payload,
                        domain_id@,
                        time_stamp,
                        if old(self).revisions@.len() == 0 {
                            Option::None
                        } else {
                            Option::Some(old(self).vh_at(old(self).revisions@.len() - 1))
                        },
                    )
                    &&& final(self).revisions@.last().0@ == final(self).revisions@.last().1.metadata.verification_hash@
                    &&& final(self).genesis_hash@ == if old(self).revisions@.len() == 0 {
                        final(self).revisions@.last().1.metadata.verification_hash@
                    } else {
                        old(self).genesis_hash@
                    }
                    &&& final(self).domain_id == old(self).domain_id
                    &&& final(self).title == old(self).title
                    &&& final(self).namespace == old(self).namespace
                    &&& (old(self).chain_ok() ==> final(self).chain_ok())
                },
                Result::Err(e) => {
                    &&& *final(self) == *old(self)
                    &&& ((e == ChainError::ChainCorrupt) <==> !old(self).last_link_ok())
                    &&& ((e == ChainError::MalformedContent) <==> (old(self).last_link_ok()
                        && !payload_ok(payload)))
                },
            },
    {
        let n: usize = self.revisions.len();
        if n > 0 {
            let last: &(HashValue, Revision) = &self.revisions[n - 1];
            if !last.0.equals(&last.1.metadata.verification_hash) {
                return Result::Err(ChainError::ChainCorrupt);
            }
        }
        let prev: Option<HashValue> = if n == 0 {
            Option::None
        } else {
            Option::Some(self.revisions[n - 1].1.metadata.verification_hash.duplicate())
        };
        let rev: Revision = match build(payload, domain_id, time_stamp, prev) {
            Result::Ok(rev) => rev,
            Result::Err(e) => {
                return Result::Err(e);
            },
        };
        let key: HashValue = rev.metadata.verification_hash.duplicate();
        if n == 0 {
            self.genesis_hash = rev.metadata.verification_hash.duplicate();
        }
        self.revisions.push((key, rev));
        self.chain_height = self.revisions.len() as u64;
        proof {
            let m = old(self).revisions@.len() as int;
            assert(self.revisions@.subrange(0, m) =~= old(self).revisions@);
            if old(self).chain_ok() {
                assert forall|i: int| 0 <= i < self.revisions@.len() implies self.entry_issue(i)
                    is None by {
                    if i < m {
                        assert(self.revisions@[i] == old(self).revisions@[i]);
                        if i > 0 {
                            assert(self.revisions@[i - 1] == old(self).revisions@[i - 1]);
                        }
                        assert(old(self).entry_issue(i) is None);
                        assert(self.link_ok(i) == old(self).link_ok(i));
                    } else {
                        assert(i == m);
                        if m > 0 {
                            assert(self.revisions@[m - 1] == old(self).revisions@[m - 1]);
                        }
                        assert(self.link_ok(i));
                        assert(rev_hashes_ok(self.rev_at(i)));
                        assert(self.key_ok(i));
                    }
                }
                if m > 0 {
                    assert(self.revisions@[0] == old(self).revisions@[0]);
                }
                assert(self.structure_ok());
            }
        }
        Result::Ok(())
    }
}

/// A walk that found nothing before `i` reports whatever the walk from `i`
/// reports.
proof fn lemma_scan_prefix(c: HashChain, i: int)
    requires
        0 <= i <= c.revisions@.len(),
        forall|j: int| 0 <= j < i ==> c.entry_issue(j) is None,
    ensures
        c.scan(0) == c.scan(i),
    decreases i,
{
    if i > 0 {
        lemma_scan_prefix(c, i - 1);
        assert(c.entry_issue(i - 1) is None);
    }
}

/// The walk from `i` reports `Valid` exactly when no revision at or after
/// `i` has a finding and the bookkeeping agrees.
proof fn lemma_scan_valid_iff(c: HashChain, i: int)
    requires
        0 <= i <= c.revisions@.len(),
    ensures
        (c.scan(i) == VerificationResult::Valid) <==> (c.structure_ok() && forall|j: int|
            i <= j < c.revisions@.len() ==> c.entry_issue(j) is None),
    decreases c.revisions@.len() - i,
{
    if i < c.revisions@.len() {
        lemma_scan_valid_iff(c, i + 1);
        if c.entry_issue(i) is Some {
            assert(c.scan(i) != VerificationResult::Valid);
        }
    }
}

/// Chain linkage: a chain every revision of which links and hashes
/// correctly — as any chain produced solely through `new` and `append`
/// does, by their contracts — verifies as `Valid`.
pub proof fn lemma_chain_ok_verifies(c: HashChain)
    requires
        c.chain_ok(),
    ensures
        c.spec_verify() == VerificationResult::Valid,
{
    lemma_scan_valid_iff(c, 0);
}

/// Genesis invariant: a non-empty chain that withstands verification
/// records no predecessor at its first revision, and its genesis hash is
/// that revision's verification hash.
pub proof fn lemma_genesis_invariant(c: HashChain)
    requires
        c.chain_ok(),
        c.revisions@.len() > 0,
    ensures
        c.rev_at(0).metadata.previous_verification_hash is None,
        c.genesis_hash@ == c.vh_at(0),
{
    assert(c.entry_issue(0) is None);
}

/// Tamper detection: take a chain that withstands verification and change
/// the stored payload of any one revision, leaving every stored hash and
/// every other entry as it was. If the altered payload's recomputed content
/// hash no longer matches the stored one — which the change of a single
/// byte is relied on to cause, short of a SHA3-512 collision over the
/// canonical bytes — verification reports exactly that index as a hash
/// mismatch.
pub proof fn lemma_tamper_detected(c: HashChain, t: HashChain, i: int)
    requires
        c.chain_ok(),
        0 <= i < c.revisions@.len(),
        t.revisions@.len() == c.revisions@.len(),
        forall|j: int| 0 <= j < c.revisions@.len() && j != i ==> t.revisions@[j]
            == c.revisions@[j],
        t.revisions@[i].0 == c.revisions@[i].0,
        t.rev_at(i).metadata == c.rev_at(i).metadata,
        t.rev_at(i).content.content_hash == c.rev_at(i).content.content_hash,
        spec_content_hash(t.rev_at(i).content.payload) != c.rev_at(i).content.content_hash@,
    ensures
        t.spec_verify() == (VerificationResult::Invalid {
            at_index: i as usize,
            reason: InvalidReason::HashMismatch,
        }),
{
    assert forall|j: int| 0 <= j < i implies t.entry_issue(j) is None by {
        assert(t.revisions@[j] == c.revisions@[j]);
        if j > 0 {
            assert(t.revisions@[j - 1] == c.revisions@[j - 1]);
        }
        assert(c.entry_issue(j) is None);
        assert(t.link_ok(j) == c.link_ok(j));
    }
    lemma_scan_prefix(t, i);
    if i > 0 {
        assert(t.revisions@[i - 1] == c.revisions@[i - 1]);
    }
    assert(t.link_ok(i) == c.link_ok(i));
    assert(c.entry_issue(i) is None);
    assert(!rev_hashes_ok(t.rev_at(i)));
    assert(t.entry_issue(i) == Option::Some(InvalidReason::HashMismatch));
}

/// Broken-link detection: take a chain of two or more revisions that
/// withstands verification and replace the recorded predecessor of any
/// revision after the first by any hash other than the previous revision's
/// verification hash, leaving everything else as it was. Verification
/// reports exactly that index as a broken link.
pub proof fn lemma_broken_link_detected(c: HashChain, t: HashChain, i: int, h: Seq<u8>)
    requires
        c.chain_ok(),
        c.revisions@.len() >= 2,
        1 <= i < c.revisions@.len(),
        t.revisions@.len() == c.revisions@.len(),
        forall|j: int| 0 <= j < c.revisions@.len() && j != i ==> t.revisions@[j]
            == c.revisions@[j],
        t.revisions@[i].0 == c.revisions@[i].0,
        t.rev_at(i).content == c.rev_at(i).content,
        t.rev_at(i).metadata.domain_id == c.rev_at(i).metadata.domain_id,
        t.rev_at(i).metadata.time_stamp == c.rev_at(i).metadata.time_stamp,
        t.rev_at(i).metadata.metadata_hash == c.rev_at(i).metadata.metadata_hash,
        t.rev_at(i).metadata.verification_hash == c.rev_at(i).metadata.verification_hash,
        opt_hash_view(t.rev_at(i).metadata.previous_verification_hash) == Option::Some(h),
        h != c.vh_at(i - 1),
    ensures
        t.spec_verify() == (VerificationResult::Invalid {
            at_index: i as usize,
            reason: InvalidReason::LinkBroken,
        }),
{
    assert forall|j: int| 0 <= j < i implies t.entry_issue(j) is None by {
        assert(t.revisions@[j] == c.revisions@[j]);
        if j > 0 {
            assert(t.revisions@[j - 1] == c.revisions@[j - 1]);
        }
        assert(c.entry_issue(j) is None);
        assert(t.link_ok(j) == c.link_ok(j));
    }
    lemma_scan_prefix(t, i);
    assert(t.revisions@[i - 1] == c.revisions@[i - 1]);
    assert(t.vh_at(i - 1) == c.vh_at(i - 1));
    assert(!t.link_ok(i));
    assert(t.entry_issue(i) == Option::Some(InvalidReason::LinkBroken));
}

} // verus!

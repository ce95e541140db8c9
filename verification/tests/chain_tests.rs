use hashchain::chain::{HashChain, InvalidReason, VerificationResult};
use hashchain::content::{ContentPayload, FileContent};
use hashchain::hashes::HashValue;
use hashchain::revision::{build, ChainError};

fn file_payload(data: &[u8], name: &str) -> ContentPayload {
    ContentPayload::File(FileContent {
        data: data.to_vec(),
        filename: name.to_string(),
        size: data.len() as u64,
        comment: String::new(),
    })
}

fn two_revision_chain() -> HashChain {
    let mut chain = HashChain::new("0".to_string(), "doc".to_string(), 0);
    chain
        .append(file_payload(b"hello", "h.txt"), "0".to_string(), 1000)
        .unwrap();
    chain
        .append(file_payload(b"world", "w.txt"), "0".to_string(), 2000)
        .unwrap();
    chain
}

fn hex_to_bytes(s: &str) -> Vec<u8> {
    let digits: Vec<u8> = s
        .bytes()
        .map(|b| match b {
            b'0'..=b'9' => b - b'0',
            b'a'..=b'f' => b - b'a' + 10,
            _ => panic!("not a hex digit"),
        })
        .collect();
    digits.chunks(2).map(|p| p[0] * 16 + p[1]).collect()
}

#[test]
fn digest_known_answer() {
    let h = HashValue::digest(&Vec::new());
    let expected = hex_to_bytes(
        "a69f73cca23a9ac5c8b567dc185a756e97c982164fe25859e0d1dcc1475c80a6\
         15b2123af1f5f94c11e3e9402c3ac558f500199d95b6d3e301758586281dcd26",
    );
    assert_eq!(h.bytes, expected);
}

#[test]
fn digest_differs_from_input() {
    let input = vec![1u8, 2, 3, 4];
    let h = HashValue::digest(&input);
    assert_eq!(h.bytes.len(), 64);
    assert_ne!(h.bytes, input);
}

#[test]
fn build_is_deterministic() {
    let r1 = build(file_payload(b"abc", "a.txt"), "d".to_string(), 7, None).unwrap();
    let r2 = build(file_payload(b"abc", "a.txt"), "d".to_string(), 7, None).unwrap();
    assert_eq!(r1.content.content_hash.bytes, r2.content.content_hash.bytes);
    assert_eq!(r1.metadata.metadata_hash.bytes, r2.metadata.metadata_hash.bytes);
    assert_eq!(
        r1.metadata.verification_hash.bytes,
        r2.metadata.verification_hash.bytes
    );
}

#[test]
fn build_rejects_size_mismatch() {
    let p = ContentPayload::File(FileContent {
        data: b"abc".to_vec(),
        filename: "a.txt".to_string(),
        size: 2,
        comment: String::new(),
    });
    let r = build(p, "d".to_string(), 1, None);
    assert!(matches!(r, Err(ChainError::MalformedContent)));
}

#[test]
fn end_to_end_two_revisions() {
    let mut chain = HashChain::new("0".to_string(), "doc".to_string(), 0);
    chain
        .append(file_payload(b"hello", "h.txt"), "0".to_string(), 1000)
        .unwrap();
    assert_eq!(chain.chain_height, 1);
    assert!(chain.revisions[0]
        .1
        .metadata
        .previous_verification_hash
        .is_none());
    assert!(chain
        .genesis_hash
        .equals(&chain.revisions[0].1.metadata.verification_hash));
    chain
        .append(file_payload(b"world", "w.txt"), "0".to_string(), 2000)
        .unwrap();
    assert_eq!(chain.chain_height, 2);
    let prev = chain.revisions[1]
        .1
        .metadata
        .previous_verification_hash
        .as_ref()
        .unwrap();
    assert!(prev.equals(&chain.revisions[0].1.metadata.verification_hash));
    assert_eq!(chain.verify(), VerificationResult::Valid);
}

#[test]
fn structured_payload_chains() {
    let fields = vec![
        ("author".to_string(), "ada".to_string()),
        ("subject".to_string(), "ledger".to_string()),
    ];
    let mut chain = HashChain::new("1".to_string(), "form".to_string(), 2);
    chain
        .append(ContentPayload::Structured(fields), "1".to_string(), 5)
        .unwrap();
    assert_eq!(chain.chain_height, 1);
    assert_eq!(chain.verify(), VerificationResult::Valid);
}

#[test]
fn append_only_growth() {
    let mut chain = HashChain::new("0".to_string(), "doc".to_string(), 0);
    chain
        .append(file_payload(b"hello", "h.txt"), "0".to_string(), 1000)
        .unwrap();
    let key_before = chain.revisions[0].0.bytes.clone();
    let vh_before = chain.revisions[0].1.metadata.verification_hash.bytes.clone();
    let data_before = match &chain.revisions[0].1.content.payload {
        ContentPayload::File(f) => f.data.clone(),
        _ => panic!("expected file payload"),
    };
    chain
        .append(file_payload(b"world", "w.txt"), "0".to_string(), 2000)
        .unwrap();
    assert_eq!(chain.chain_height, 2);
    assert_eq!(chain.revisions.len(), 2);
    assert_eq!(chain.revisions[0].0.bytes, key_before);
    assert_eq!(
        chain.revisions[0].1.metadata.verification_hash.bytes,
        vh_before
    );
    match &chain.revisions[0].1.content.payload {
        ContentPayload::File(f) => assert_eq!(f.data, data_before),
        _ => panic!("expected file payload"),
    }
}

#[test]
fn tamper_detected_at_index() {
    let mut chain = two_revision_chain();
    assert_eq!(chain.verify(), VerificationResult::Valid);
    match &mut chain.revisions[0].1.content.payload {
        ContentPayload::File(f) => {
            f.data[0] ^= 0xff;
        }
        _ => panic!("expected file payload"),
    }
    assert_eq!(
        chain.verify(),
        VerificationResult::Invalid {
            at_index: 0,
            reason: InvalidReason::HashMismatch,
        }
    );
}

#[test]
fn tampered_metadata_detected() {
    let mut chain = two_revision_chain();
    chain.revisions[1].1.metadata.time_stamp += 1;
    assert_eq!(
        chain.verify(),
        VerificationResult::Invalid {
            at_index: 1,
            reason: InvalidReason::HashMismatch,
        }
    );
}

#[test]
fn broken_link_detected_at_index() {
    let mut chain = two_revision_chain();
    let mut wrong = chain.revisions[0].1.metadata.verification_hash.duplicate();
    wrong.bytes[0] ^= 1;
    chain.revisions[1].1.metadata.previous_verification_hash = Some(wrong);
    assert_eq!(
        chain.verify(),
        VerificationResult::Invalid {
            at_index: 1,
            reason: InvalidReason::LinkBroken,
        }
    );
}

#[test]
fn genesis_must_have_no_predecessor() {
    let mut chain = two_revision_chain();
    chain.revisions[0].1.metadata.previous_verification_hash = Some(HashValue::zero());
    assert_eq!(
        chain.verify(),
        VerificationResult::Invalid {
            at_index: 0,
            reason: InvalidReason::LinkBroken,
        }
    );
}

#[test]
fn wrong_height_is_structural() {
    let mut chain = two_revision_chain();
    chain.chain_height = 5;
    assert_eq!(
        chain.verify(),
        VerificationResult::Invalid {
            at_index: 0,
            reason: InvalidReason::StructuralInconsistency,
        }
    );
}

#[test]
fn wrong_genesis_is_structural() {
    let mut chain = two_revision_chain();
    chain.genesis_hash = HashValue::zero();
    assert_eq!(
        chain.verify(),
        VerificationResult::Invalid {
            at_index: 0,
            reason: InvalidReason::StructuralInconsistency,
        }
    );
}

#[test]
fn mismatched_key_is_structural() {
    let mut chain = two_revision_chain();
    chain.revisions[1].0.bytes[0] ^= 1;
    assert_eq!(
        chain.verify(),
        VerificationResult::Invalid {
            at_index: 1,
            reason: InvalidReason::StructuralInconsistency,
        }
    );
}

#[test]
fn corrupt_chain_rejected_on_append() {
    let mut chain = two_revision_chain();
    chain.revisions[1].0.bytes[0] ^= 1;
    let r = chain.append(file_payload(b"more", "m.txt"), "0".to_string(), 3000);
    assert!(matches!(r, Err(ChainError::ChainCorrupt)));
    assert_eq!(chain.chain_height, 2);
    assert_eq!(chain.revisions.len(), 2);
}

#[test]
fn malformed_payload_rejected_on_append() {
    let mut chain = two_revision_chain();
    let p = ContentPayload::File(FileContent {
        data: b"abc".to_vec(),
        filename: "a.txt".to_string(),
        size: 99,
        comment: String::new(),
    });
    let r = chain.append(p, "0".to_string(), 3000);
    assert!(matches!(r, Err(ChainError::MalformedContent)));
    assert_eq!(chain.chain_height, 2);
    assert_eq!(chain.verify(), VerificationResult::Valid);
}

#[test]
fn empty_chain_is_valid() {
    let chain = HashChain::new("0".to_string(), "doc".to_string(), 0);
    assert_eq!(chain.verify(), VerificationResult::Valid);
}

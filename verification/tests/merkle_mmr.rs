//! Merkle Mountain Range: hex text, appends, roots and inclusion proofs.

use trustledger::merkle::error::{MmrError, ProofError};
use trustledger::merkle::hash::{bag_peaks, combine_nodes, combine_peaks, hash_leaf, Hash32, HexError};
use trustledger::merkle::mmr::MerkleMountainRange;
use trustledger::merkle::event_hasher::{hash_ledger_event, hash_transfer};
use trustledger::merkle::inclusion::MmrProof;
use trustledger::ledger_core::account::{AccountFlags, AccountType};
use trustledger::ledger_core::amount::{Amount, Scale};
use trustledger::ledger_core::id::{AccountId, TransferId};
use trustledger::ledger_core::journal::LedgerEvent;
use trustledger::ledger_core::transfer::Transfer;

#[test]
fn test_hex_conversion_roundtrip() {
    let raw = [42u8; 32];
    let hash = Hash32::new(raw);
    let hex = hash.to_hex();
    assert_eq!(hex.len(), 64);
    let parsed = Hash32::from_hex(&hex).expect("valid hex");
    assert_eq!(parsed, hash);

    // Test invalid length
    assert_eq!(Hash32::from_hex("abcd"), Err(HexError::InvalidLength(4)));

    // Test invalid character
    let bad_hex = "zz".to_string() + &hex[2..];
    match Hash32::from_hex(&bad_hex) {
        Err(HexError::InvalidCharacter { char: 'z', index: 0 }) => {}
        other => panic!("expected invalid character error, got {other:?}"),
    }
}

#[test]
fn test_empty_mmr() {
    let mmr = MerkleMountainRange::new();
    assert!(mmr.is_empty());
    assert_eq!(mmr.leaf_count(), 0);
    assert_eq!(mmr.node_count(), 0);
    assert_eq!(mmr.root(), Hash32::zero());
    assert_eq!(mmr.peaks(), Vec::<Hash32>::new());

    assert_eq!(mmr.generate_proof(0), Err(MmrError::LeafIndexOutOfBounds { index: 0, count: 0 }));
}

#[test]
fn test_single_leaf_mmr() {
    let mut mmr = MerkleMountainRange::new();
    let leaf_data = b"transfer-001";
    let leaf_hash = hash_leaf(leaf_data);

    let idx = mmr.append_leaf(leaf_data);
    assert_eq!(idx, 0);
    assert_eq!(mmr.leaf_count(), 1);
    assert_eq!(mmr.node_count(), 1);
    assert_eq!(mmr.root(), leaf_hash);
    assert_eq!(mmr.peaks(), vec![leaf_hash]);

    let proof = mmr.generate_proof(0).expect("proof generation");
    assert_eq!(proof.leaf_index, 0);
    assert_eq!(proof.leaf_count, 1);
    assert!(proof.siblings.is_empty());
    assert_eq!(proof.peaks, vec![leaf_hash]);

    assert!(proof.verify(&mmr.root(), &leaf_hash).is_ok());
}

#[test]
fn test_multi_leaf_powers_of_two_and_odd() {
    for leaf_count in [1, 2, 3, 4, 5, 7, 8, 9, 15, 16, 17, 31, 32, 33, 64] {
        let mut mmr = MerkleMountainRange::new();
        let mut leaf_hashes = Vec::new();

        for i in 0..leaf_count {
            let data = format!("entry-{leaf_count}-{i}");
            let hash = hash_leaf(data.as_bytes());
            leaf_hashes.push(hash);
            mmr.append_leaf_hash(hash);
        }

        assert_eq!(mmr.leaf_count(), leaf_count);
        let root = mmr.root();

        for (i, leaf_hash) in leaf_hashes.iter().enumerate() {
            let proof = mmr.generate_proof(i).expect("proof generation");
            assert!(
                proof.verify(&root, leaf_hash).is_ok(),
                "failed to verify leaf {i} for total count {leaf_count}"
            );

            let fake_root = Hash32::new([0xff; 32]);
            assert!(matches!(proof.verify(&fake_root, leaf_hash), Err(ProofError::RootMismatch { .. })));
        }
    }
}

#[test]
fn test_tampered_siblings_rejected() {
    let mut mmr = MerkleMountainRange::new();
    for i in 0..10 {
        mmr.append_leaf(format!("leaf-{i}").as_bytes());
    }

    let leaf_hash = mmr.leaf_hash(3).expect("leaf hash");
    let mut proof = mmr.generate_proof(3).expect("proof");

    assert!(proof.verify(&mmr.root(), &leaf_hash).is_ok());

    if !proof.siblings.is_empty() {
        proof.siblings[0].0[0] ^= 0x01;
        assert!(proof.verify(&mmr.root(), &leaf_hash).is_err());
    }
}

#[test]
fn every_leaf_of_every_size_verifies_and_tampered_leaves_fail() {
    for leaf_count in 1usize..=40 {
        let mut mmr = MerkleMountainRange::new();
        let mut leaves = Vec::new();
        for i in 0..leaf_count {
            let hash = hash_leaf(format!("prop-data-{i}").as_bytes());
            leaves.push(hash);
            assert_eq!(mmr.append_leaf_hash(hash), i);
        }
        assert_eq!(mmr.node_count(), 2 * leaf_count - leaf_count.count_ones() as usize);
        assert_eq!(mmr.peaks().len(), leaf_count.count_ones() as usize);
        let root = mmr.root();
        for (i, &leaf_hash) in leaves.iter().enumerate() {
            let proof = mmr.generate_proof(i).expect("valid proof");
            assert!(proof.verify(&root, &leaf_hash).is_ok());
            for bit in 0..8 {
                let mut bad_leaf = leaf_hash;
                bad_leaf.0[0] ^= 1 << bit;
                assert!(matches!(proof.verify(&root, &bad_leaf), Err(ProofError::PeakMismatch { .. })));
            }
        }
    }
}

#[test]
fn proof_shape_errors_are_reported_in_order() {
    let mut mmr = MerkleMountainRange::new();
    for i in 0..5 {
        mmr.append_leaf(format!("x-{i}").as_bytes());
    }
    let root = mmr.root();
    let leaf = mmr.leaf_hash(1).unwrap();
    let proof = mmr.generate_proof(1).unwrap();

    let mut empty = proof.clone();
    empty.leaf_count = 0;
    assert_eq!(empty.verify(&root, &leaf), Err(ProofError::EmptyTree));

    let mut out_of_range = proof.clone();
    out_of_range.leaf_index = 5;
    assert_eq!(
        out_of_range.verify(&root, &leaf),
        Err(ProofError::LeafIndexOutOfBounds { index: 5, count: 5 })
    );

    let mut few_peaks = proof.clone();
    few_peaks.peaks.pop();
    assert_eq!(few_peaks.verify(&root, &leaf), Err(ProofError::PeakCountMismatch { expected: 2, actual: 1 }));

    let mut few_siblings = proof.clone();
    few_siblings.siblings.pop();
    assert_eq!(
        few_siblings.verify(&root, &leaf),
        Err(ProofError::SiblingCountMismatch { expected: 2, actual: 1 })
    );

    assert_eq!(mmr.leaf_hash(9), Err(MmrError::LeafIndexOutOfBounds { index: 9, count: 5 }));
}

#[test]
fn hashes_are_domain_separated_and_peaks_bag_right_to_left() {
    let a = hash_leaf(b"a");
    let b = hash_leaf(b"b");
    let c = hash_leaf(b"c");
    assert_ne!(combine_nodes(&a, &b), combine_peaks(&a, &b));
    assert_ne!(combine_nodes(&a, &b), combine_nodes(&b, &a));
    assert_eq!(bag_peaks(&[]), Hash32::zero());
    assert_eq!(bag_peaks(&[a]), a);
    assert_eq!(bag_peaks(&[a, b, c]), combine_peaks(&a, &combine_peaks(&b, &c)));

    let mut mmr = MerkleMountainRange::new();
    mmr.append_leaf_hash(a);
    mmr.append_leaf_hash(b);
    mmr.append_leaf_hash(c);
    assert_eq!(mmr.peaks(), vec![combine_nodes(&a, &b), c]);
    assert_eq!(mmr.root(), combine_peaks(&combine_nodes(&a, &b), &c));
    assert_eq!(mmr.node_count(), 4);
}

#[test]
fn hex_text_is_lowercase_and_parsing_accepts_either_case() {
    let h = Hash32::new([0xab; 32]);
    assert_eq!(h.to_hex(), "ab".repeat(32));
    assert_eq!(Hash32::from_hex(&"AB".repeat(32)), Ok(h));
    let mut bad = "ab".repeat(32);
    bad.replace_range(7..8, "g");
    assert_eq!(Hash32::from_hex(&bad), Err(HexError::InvalidCharacter { char: 'g', index: 7 }));
    assert_eq!(Hash32::zero().as_bytes(), &[0u8; 32]);
}

#[test]
fn test_mmr_state_serialization() {
    let mut mmr = MerkleMountainRange::new();
    for i in 0..25 {
        mmr.append_leaf(format!("record-{i}").as_bytes());
    }

    let leaves: Vec<[u8; 32]> = mmr.leaf_hashes().iter().map(|h| *h.as_bytes()).collect();
    let bytes = postcard::to_allocvec(&leaves).expect("serialize MMR");
    let decoded: Vec<[u8; 32]> = postcard::from_bytes(&bytes).expect("deserialize MMR");
    let hashes: Vec<Hash32> = decoded.into_iter().map(Hash32::new).collect();
    let restored = MerkleMountainRange::from_leaf_hashes(&hashes);

    assert_eq!(mmr.leaf_count(), restored.leaf_count());
    assert_eq!(mmr.root(), restored.root());
    assert_eq!(mmr.peaks(), restored.peaks());

    let leaf_hash = restored.leaf_hash(12).expect("leaf hash");
    let proof = restored.generate_proof(12).expect("proof");
    assert!(proof.verify(&restored.root(), &leaf_hash).is_ok());
}

#[test]
fn test_deterministic_transfer_proof() {
    let mut mmr = MerkleMountainRange::new();

    let t1 = Transfer::new_immediate(
        TransferId::new(1),
        AccountId::new(10),
        AccountId::new(20),
        Amount::new(500),
        1_700_000_000,
    )
    .expect("valid transfer");

    let t2 = Transfer::new_immediate(
        TransferId::new(2),
        AccountId::new(30),
        AccountId::new(40),
        Amount::new(1_200),
        1_700_000_001,
    )
    .expect("valid transfer");

    let idx1 = mmr.append_transfer(&t1).expect("append transfer 1");
    let idx2 = mmr.append_transfer(&t2).expect("append transfer 2");

    assert_eq!(idx1, 0);
    assert_eq!(idx2, 1);
    assert_eq!(mmr.leaf_count(), 2);

    let t1_hash = hash_transfer(&t1).expect("hash transfer 1");
    let proof1 = mmr.generate_proof(0).expect("generate proof 1");
    assert!(proof1.verify(&mmr.root(), &t1_hash).is_ok());

    // Proof serialization roundtrip
    let record: (usize, usize, Vec<[u8; 32]>, Vec<[u8; 32]>) = (
        proof1.leaf_index,
        proof1.leaf_count,
        proof1.siblings.iter().map(|h| *h.as_bytes()).collect(),
        proof1.peaks.iter().map(|h| *h.as_bytes()).collect(),
    );
    let proof_bytes = postcard::to_allocvec(&record).expect("serialize proof");
    let decoded: (usize, usize, Vec<[u8; 32]>, Vec<[u8; 32]>) =
        postcard::from_bytes(&proof_bytes).expect("deserialize proof");
    let deserialized = MmrProof {
        leaf_index: decoded.0,
        leaf_count: decoded.1,
        siblings: decoded.2.into_iter().map(Hash32::new).collect(),
        peaks: decoded.3.into_iter().map(Hash32::new).collect(),
    };
    assert_eq!(deserialized, proof1);
    assert!(deserialized.verify(&mmr.root(), &t1_hash).is_ok());

    // Tamper with transfer payload: verification must fail
    let tampered_t1 = Transfer::new_immediate(
        TransferId::new(1),
        AccountId::new(10),
        AccountId::new(20),
        Amount::new(999_999), // forged amount
        1_700_000_000,
    )
    .expect("valid transfer");
    let tampered_hash = hash_transfer(&tampered_t1).expect("hash tampered");
    match proof1.verify(&mmr.root(), &tampered_hash) {
        Err(ProofError::PeakMismatch { .. }) => {}
        other => panic!("expected PeakMismatch, got {other:?}"),
    }
}

#[test]
fn test_ledger_event_append_and_proof() {
    let mut mmr = MerkleMountainRange::new();

    let event = LedgerEvent::AccountCreated {
        id: AccountId::new(100),
        account_type: AccountType::Liability,
        flags: AccountFlags::customer(),
        scale: Scale::usd(),
        timestamp: 1_700_000_000,
    };

    let idx = mmr.append_ledger_event(&event).expect("append event");
    assert_eq!(idx, 0);

    let event_hash = mmr.leaf_hash(0).expect("leaf hash");
    let proof = mmr.generate_proof(0).expect("proof");
    assert!(proof.verify(&mmr.root(), &event_hash).is_ok());
}

#[test]
fn transfer_and_event_leaves_hash_their_postcard_records() {
    let t = Transfer::new_pending(TransferId::new(7), AccountId::new(1), AccountId::new(2), Amount::new(300), 9)
        .expect("valid hold");
    let fields: (u128, u128, u128, u128, u32, Option<u128>, u64) = (7, 1, 2, 300, 0, None, 9);
    let bytes = postcard::to_allocvec(&fields).unwrap();
    assert_eq!(hash_transfer(&t).unwrap(), hash_leaf(&bytes));

    let event = LedgerEvent::TransferPendingCreated { transfer: t.clone() };
    let event_bytes = postcard::to_allocvec(&(3u32, fields)).unwrap();
    assert_eq!(hash_ledger_event(&event).unwrap(), hash_leaf(&event_bytes));
    assert_ne!(hash_ledger_event(&event).unwrap(), hash_transfer(&t).unwrap());

    let closed = LedgerEvent::AccountClosed { id: AccountId::new(5), timestamp: 11 };
    let closed_bytes = postcard::to_allocvec(&(1u32, 5u128, 11u64)).unwrap();
    assert_eq!(hash_ledger_event(&closed).unwrap(), hash_leaf(&closed_bytes));
}

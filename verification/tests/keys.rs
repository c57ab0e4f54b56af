use mpc_recovery::keys::{
    copy_bytes, generate, judge, CombineError, KeyError, PartialSignature, SecretKeyShare,
    ThresholdKeySet,
};

fn share(node: usize, signature: &[u8]) -> PartialSignature {
    PartialSignature { node, signature: signature.to_vec() }
}

fn signed(secrets: &[SecretKeyShare], nodes: &[usize], message: &[u8]) -> Vec<PartialSignature> {
    nodes.iter().map(|&node| secrets[node - 1].sign(message).unwrap()).collect()
}

#[test]
fn generate_rejects_threshold_not_below_nodes() {
    assert!(matches!(generate(3, 3), Err(KeyError::InvalidParameters)));
    assert!(matches!(generate(3, 4), Err(KeyError::InvalidParameters)));
    assert!(matches!(generate(0, 0), Err(KeyError::InvalidParameters)));
    assert!(matches!(generate(0, 1), Err(KeyError::InvalidParameters)));
    assert!(generate(1, 0).is_ok());
    assert!(generate(3, 2).is_ok());
}

#[test]
fn generate_numbers_the_shares_from_one() {
    let (keys, secrets) = generate(5, 1).unwrap();
    assert_eq!(keys.threshold(), 1);
    assert_eq!(keys.nodes(), 5);
    assert_eq!(keys.quorum(), 2);
    assert_eq!(keys.public_key().len(), 48);
    assert_eq!(secrets.len(), 5);
    for (k, secret) in secrets.iter().enumerate() {
        assert_eq!(secret.index(), k + 1);
        assert_eq!(keys.public_key_share(k + 1).unwrap().len(), 48);
    }
    assert_eq!(keys.public_key_share(0), None);
    assert_eq!(keys.public_key_share(6), None);
}

#[test]
fn generate_draws_a_new_key_each_time() {
    let (first, _) = generate(3, 1).unwrap();
    let (second, _) = generate(3, 1).unwrap();
    assert_ne!(first.public_key(), second.public_key());
}

#[test]
fn quorum_of_shares_combines_to_a_valid_signature() {
    let (keys, secrets) = generate(4, 2).unwrap();
    let message = b"a payload to sign";
    let shares = signed(&secrets, &[1, 2, 3, 4], message);
    for share in &shares {
        assert_eq!(share.signature.len(), 96);
        assert!(keys.verify_share(share, message));
        assert!(!keys.verify_share(share, b"another payload"));
    }
    let subsets: [[usize; 3]; 4] = [[1, 2, 3], [1, 2, 4], [1, 3, 4], [2, 3, 4]];
    let mut signatures = Vec::new();
    for subset in subsets {
        let chosen = signed(&secrets, &subset, message);
        let signature = keys.combine(&chosen, message).unwrap();
        assert!(keys.verify(&signature.to_bytes(), message));
        assert!(!keys.verify(&signature.to_bytes(), b"another payload"));
        signatures.push(signature.to_bytes());
    }
    assert!(signatures.iter().all(|s| s == &signatures[0]));
}

#[test]
fn order_of_shares_does_not_change_the_signature() {
    let (keys, secrets) = generate(4, 2).unwrap();
    let message = b"ordered or not";
    let forward = keys.combine(&signed(&secrets, &[1, 3, 4], message), message).unwrap();
    let backward = keys.combine(&signed(&secrets, &[4, 3, 1], message), message).unwrap();
    assert_eq!(forward.to_bytes(), backward.to_bytes());
    assert_eq!(forward.copy().to_bytes(), forward.to_bytes());
}

#[test]
fn more_shares_than_the_quorum_combine_too() {
    let (keys, secrets) = generate(4, 2).unwrap();
    let message = b"all four";
    let signature = keys.combine(&signed(&secrets, &[1, 2, 3, 4], message), message).unwrap();
    assert!(keys.verify(&signature.to_bytes(), message));
}

#[test]
fn too_few_shares_do_not_combine() {
    let (keys, secrets) = generate(4, 2).unwrap();
    let message = b"a payload to sign";
    for count in 0..=2usize {
        let nodes: Vec<usize> = (1..=count).collect();
        let few = signed(&secrets, &nodes, message);
        assert!(matches!(keys.combine(&few, message), Err(CombineError::NotEnoughShares)));
    }
}

#[test]
fn single_node_cluster_signs_alone() {
    let (keys, secrets) = generate(1, 0).unwrap();
    let message = b"alone";
    let signature = keys.combine(&signed(&secrets, &[1], message), message).unwrap();
    assert!(keys.verify(&signature.to_bytes(), message));
    assert!(matches!(keys.combine(&Vec::new(), message), Err(CombineError::NotEnoughShares)));
}

#[test]
fn shares_of_unknown_or_repeated_nodes_do_not_combine() {
    let (keys, secrets) = generate(4, 2).unwrap();
    let message = b"a payload to sign";
    let mut shares = signed(&secrets, &[1, 2, 3], message);
    shares[2].node = 5;
    assert!(matches!(keys.combine(&shares, message), Err(CombineError::UnknownNode)));
    shares[2].node = 0;
    assert!(matches!(keys.combine(&shares, message), Err(CombineError::UnknownNode)));
    shares[2].node = 1;
    assert!(matches!(keys.combine(&shares, message), Err(CombineError::DuplicateNode)));
}

#[test]
fn malformed_share_is_refused() {
    let (keys, secrets) = generate(4, 2).unwrap();
    let message = b"a payload to sign";
    let mut shares = signed(&secrets, &[1, 2, 3], message);
    shares[1].signature = vec![0u8; 5];
    assert!(matches!(keys.combine(&shares, message), Err(CombineError::Refused)));
    shares[1].signature = vec![0xffu8; 96];
    assert!(matches!(keys.combine(&shares, message), Err(CombineError::Refused)));
}

#[test]
fn wrong_share_gives_a_mismatch() {
    let (keys, secrets) = generate(4, 2).unwrap();
    let message = b"a payload to sign";
    let mut shares = signed(&secrets, &[1, 2, 3], message);
    shares[0] = share(1, &secrets[0].sign(b"something else").unwrap().signature);
    assert!(matches!(keys.combine(&shares, message), Err(CombineError::Mismatch)));
    let mut swapped = signed(&secrets, &[1, 2, 3], message);
    swapped[0].node = 4;
    assert!(matches!(keys.combine(&swapped, message), Err(CombineError::Mismatch)));
}

#[test]
fn shares_verify_only_under_their_own_node() {
    let (keys, secrets) = generate(3, 1).unwrap();
    let message = b"mine";
    let first = secrets[0].sign(message).unwrap();
    assert_eq!(first.node, 1);
    assert!(keys.verify_share(&first, message));
    assert!(!keys.verify_share(&share(2, &first.signature), message));
    assert!(!keys.verify_share(&share(0, &first.signature), message));
    assert!(!keys.verify_share(&share(4, &first.signature), message));
    assert!(!keys.verify_share(&share(1, &first.signature[..95]), message));
    assert!(!keys.verify_share(&share(1, &[]), message));
    assert!(!keys.verify(&first.signature, message));
    assert!(!keys.verify(&[1, 2, 3], message));
}

#[test]
fn keys_from_other_cluster_do_not_verify() {
    let (keys, _) = generate(3, 1).unwrap();
    let (_, other_secrets) = generate(3, 1).unwrap();
    let message = b"mine";
    let foreign = other_secrets[0].sign(message).unwrap();
    assert!(!keys.verify_share(&foreign, message));
}

#[test]
fn judge_surfaces_only_a_verified_signature() {
    assert_eq!(judge(Some(vec![1, 2, 3]), true), Ok(vec![1, 2, 3]));
    assert_eq!(judge(Some(vec![1, 2, 3]), false), Err(CombineError::Mismatch));
    assert_eq!(judge(None, false), Err(CombineError::Refused));
    assert_eq!(judge(None, true), Err(CombineError::Refused));
}

#[test]
fn key_set_is_made_of_well_formed_parts_only() {
    let (keys, _) = generate(3, 1).unwrap();
    let aggregate = keys.public_key();
    let shares: Vec<Vec<u8>> = (1..=3).map(|k| keys.public_key_share(k).unwrap()).collect();
    let rebuilt = ThresholdKeySet::new(1, aggregate.clone(), shares.clone()).unwrap();
    assert_eq!(rebuilt.threshold(), 1);
    assert_eq!(rebuilt.nodes(), 3);
    assert_eq!(rebuilt.public_key(), aggregate);
    assert!(ThresholdKeySet::new(2, aggregate.clone(), shares.clone()).is_ok());
    assert!(matches!(
        ThresholdKeySet::new(3, aggregate.clone(), shares.clone()),
        Err(KeyError::InvalidParameters)
    ));
    assert!(matches!(
        ThresholdKeySet::new(0, aggregate.clone(), Vec::new()),
        Err(KeyError::InvalidParameters)
    ));
    assert!(matches!(
        ThresholdKeySet::new(1, aggregate[..47].to_vec(), shares.clone()),
        Err(KeyError::InvalidParameters)
    ));
    let mut short = shares.clone();
    short[2].pop();
    assert!(matches!(
        ThresholdKeySet::new(1, aggregate.clone(), short),
        Err(KeyError::InvalidParameters)
    ));
}

#[test]
fn copy_of_key_set_verifies_the_same() {
    let (keys, secrets) = generate(3, 1).unwrap();
    let copy = keys.copy();
    assert_eq!(copy.threshold(), keys.threshold());
    assert_eq!(copy.nodes(), keys.nodes());
    assert_eq!(copy.public_key(), keys.public_key());
    let message = b"copied";
    let shares = signed(&secrets, &[2, 3], message);
    let signature = copy.combine(&shares, message).unwrap();
    assert!(keys.verify(&signature.to_bytes(), message));
}

#[test]
fn stored_secret_signs_as_the_share_did() {
    let (keys, secrets) = generate(3, 1).unwrap();
    let message = b"restored";
    let stored = secrets[1].to_stored();
    let restored = SecretKeyShare::from_parts(2, stored);
    assert_eq!(restored.index(), 2);
    let again = restored.sign(message).unwrap();
    assert_eq!(again.signature, secrets[1].sign(message).unwrap().signature);
    assert!(keys.verify_share(&again, message));
}

#[test]
fn unusable_secret_signs_nothing() {
    let garbage = SecretKeyShare::from_parts(1, b"not a secret".to_vec());
    assert!(garbage.sign(b"anything").is_none());
    let empty = SecretKeyShare::from_parts(1, Vec::new());
    assert!(empty.sign(b"anything").is_none());
}

#[test]
fn copy_bytes_copies() {
    assert_eq!(copy_bytes(&vec![9, 8, 7]), vec![9, 8, 7]);
    assert_eq!(copy_bytes(&Vec::new()), Vec::<u8>::new());
}

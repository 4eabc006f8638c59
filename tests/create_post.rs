use fansphere::address::{address_eq, derive_post_address, post_seed_list};
use fansphere::create_post::{AccountRef, CreateVault, CreateVaultAccounts};
use fansphere::error::PostError;
use fansphere::instruction::{CreateVaultInstructionData, Operation};
use fansphere::state::PostState;

fn program_id() -> [u8; 32] {
    [9u8; 32]
}

fn maker() -> [u8; 32] {
    [1u8; 32]
}

fn hash() -> [u8; 32] {
    let mut h = [0u8; 32];
    for (i, b) in h.iter_mut().enumerate() {
        *b = i as u8 + 100;
    }
    h
}

fn minimal_payload(seq: u64, price: u64, content_hash: [u8; 32]) -> Vec<u8> {
    let mut v = vec![0u8];
    v.extend_from_slice(&seq.to_le_bytes());
    v.extend_from_slice(&price.to_le_bytes());
    v.extend_from_slice(&content_hash);
    v
}

/// A request with the given core fields: public, empty title, zero preview.
fn post_payload(seq: u64, price: u64, content_hash: [u8; 32]) -> Vec<u8> {
    let mut v = minimal_payload(seq, price, content_hash);
    v.extend_from_slice(&[0u8; 65]);
    v
}

fn refs(target: [u8; 32], signer: bool) -> Vec<AccountRef> {
    vec![
        AccountRef { address: maker(), is_signer: signer },
        AccountRef { address: target, is_signer: false },
        AccountRef { address: [3u8; 32], is_signer: false },
        AccountRef { address: [0u8; 32], is_signer: false },
    ]
}

fn post_target(seq: u64) -> ([u8; 32], u8) {
    derive_post_address(&maker(), seq, &program_id()).expect("a post address exists")
}

#[test]
fn default_payload_round_trip() {
    let d = CreateVaultInstructionData {
        seed: 7,
        price: 1000,
        content_hash: hash(),
        is_private: 0,
        title: [0u8; 32],
        preview_hash: [0u8; 32],
    };
    let bytes = d.to_bytes();
    assert_eq!(bytes.len(), 114);
    assert_eq!(bytes, post_payload(7, 1000, hash()));
    assert_eq!(CreateVaultInstructionData::try_from_bytes(&bytes), Ok(d));
}

#[test]
fn extended_payload_round_trip() {
    let d = CreateVaultInstructionData {
        seed: u64::MAX,
        price: 0x0102030405060708,
        content_hash: hash(),
        is_private: 1,
        title: [b'a'; 32],
        preview_hash: [0xeeu8; 32],
    };
    let bytes = d.to_bytes();
    assert_eq!(bytes.len(), 114);
    assert_eq!(&bytes[9..17], &[8, 7, 6, 5, 4, 3, 2, 1]);
    assert_eq!(bytes[49], 1);
    assert_eq!(CreateVaultInstructionData::try_from_bytes(&bytes), Ok(d));
}

#[test]
fn payload_off_by_one_is_malformed() {
    let mut short = post_payload(7, 1000, hash());
    short.pop();
    assert_eq!(
        CreateVaultInstructionData::try_from_bytes(&short),
        Err(PostError::MalformedInput)
    );
    let mut long = post_payload(7, 1000, hash());
    long.push(0);
    assert_eq!(
        CreateVaultInstructionData::try_from_bytes(&minimal_payload(7, 1000, hash())),
        Err(PostError::MalformedInput)
    );
    assert!(matches!(
        CreateVault::try_from_parts(&minimal_payload(7, 1000, hash()), &[], &program_id()),
        Err(PostError::MalformedInput)
    ));
    assert_eq!(
        CreateVaultInstructionData::try_from_bytes(&long),
        Err(PostError::MalformedInput)
    );
    let (target, _) = post_target(7);
    assert!(matches!(
        CreateVault::try_from_parts(&short, &refs(target, true), &program_id()),
        Err(PostError::MalformedInput)
    ));
}

#[test]
fn operation_decode_by_tag() {
    assert_eq!(Operation::decode(&[]), Err(PostError::MalformedInput));
    let mut other = post_payload(7, 1000, hash());
    other[0] = 5;
    assert_eq!(Operation::decode(&other), Err(PostError::MalformedInput));
    let ok = post_payload(7, 1000, hash());
    match Operation::decode(&ok) {
        Ok(Operation::CreatePost(d)) => {
            assert_eq!(d.seed, 7);
            assert_eq!(d.price, 1000);
            assert_eq!(d.content_hash, hash());
        }
        other => panic!("unexpected {:?}", other),
    }
    assert_eq!(Operation::decode(&ok[..10]), Err(PostError::MalformedInput));
}

#[test]
fn derivation_is_deterministic() {
    let a = derive_post_address(&maker(), 7, &program_id());
    let b = derive_post_address(&maker(), 7, &program_id());
    assert!(a.is_some());
    assert_eq!(a, b);
    let c = derive_post_address(&maker(), 8, &program_id());
    assert_ne!(a.unwrap().0, c.unwrap().0);
    assert_ne!(a.unwrap().0, maker());
    assert_ne!(a.unwrap().0, program_id());
}

#[test]
fn derivation_matches_the_ledger_rule() {
    let pid = pinocchio::Address::new_from_array(program_id());
    let m = maker();
    let seq = 7u64.to_le_bytes();
    let (expected, bump) =
        pinocchio::Address::find_program_address(&[b"post", &m, &seq], &pid);
    assert_eq!(post_target(7), (expected.to_bytes(), bump));
    let seeds = post_seed_list(&maker(), 7);
    assert_eq!(seeds, vec![b"post".to_vec(), m.to_vec(), seq.to_vec()]);
}

#[test]
fn bind_needs_four_references() {
    let (target, _) = post_target(7);
    let r = refs(target, true);
    assert_eq!(
        CreateVaultAccounts::try_from_bytes(&r[..3]),
        Err(PostError::InsufficientReferences)
    );
    let bound = CreateVaultAccounts::try_from_bytes(&r).unwrap();
    assert_eq!(bound.maker, r[0]);
    assert_eq!(bound.post_state, r[1]);
    assert_eq!(bound.mint, r[2]);
    assert_eq!(bound.system_program, r[3]);
    let payload = post_payload(7, 1000, hash());
    assert!(matches!(
        CreateVault::try_from_parts(&payload, &r[..2], &program_id()),
        Err(PostError::InsufficientReferences)
    ));
}

#[test]
fn unsigned_authorizer_is_refused() {
    let (target, _) = post_target(7);
    assert_eq!(
        CreateVaultAccounts::try_from_bytes(&refs(target, false)),
        Err(PostError::MissingAuthorization)
    );
    let payload = post_payload(7, 1000, hash());
    assert!(matches!(
        CreateVault::try_from_parts(&payload, &refs(target, false), &program_id()),
        Err(PostError::MissingAuthorization)
    ));
}

#[test]
fn unrelated_target_is_address_mismatch() {
    let payload = post_payload(7, 1000, hash());
    assert!(matches!(
        CreateVault::try_from_parts(&payload, &refs([42u8; 32], true), &program_id()),
        Err(PostError::AddressMismatch)
    ));
    // the address of another sequence number does not match either
    let (other, _) = post_target(8);
    assert!(matches!(
        CreateVault::try_from_parts(&payload, &refs(other, true), &program_id()),
        Err(PostError::AddressMismatch)
    ));
}

#[test]
fn create_post_scenario() {
    let (target, bump) = post_target(7);
    let payload = post_payload(7, 1000, hash());
    let cmd = CreateVault::try_from_parts(&payload, &refs(target, true), &program_id()).unwrap();
    assert_eq!(cmd.bump(), bump);
    assert_eq!(cmd.args.seed, 7);
    let seeds = cmd.signer_seeds();
    assert_eq!(seeds.len(), 4);
    assert_eq!(seeds[3], vec![bump]);
    let mut storage = vec![0u8; PostState::LEN];
    assert_eq!(cmd.process(true, &mut storage), Ok(()));
    let post = PostState::load(&storage).unwrap();
    assert_eq!(post.is_initialized, 1);
    assert_eq!(post.maker, maker());
    assert_eq!(post.price, 1000);
    assert_eq!(post.content_hash, hash());
    assert_eq!(post.seed, 7);
    assert_eq!(post.bump, [bump]);
    assert_eq!(post.mint, [3u8; 32]);
    assert_eq!(post.is_private, 0);
    assert_eq!(post.title, [0u8; 32]);
    assert_eq!(post.preview_hash, [0u8; 32]);
    assert_eq!(post.likes, 0);
    assert_eq!(post.comments_count, 0);
    assert_eq!(post.tips_total, 0);
    assert_eq!(post.subscriber_mint, [0u8; 32]);
    assert_eq!(&storage[33..41], &1000u64.to_le_bytes());
}

#[test]
fn extended_create_keeps_social_fields() {
    let (target, _) = post_target(11);
    let d = CreateVaultInstructionData {
        seed: 11,
        price: 5,
        content_hash: hash(),
        is_private: 1,
        title: [b't'; 32],
        preview_hash: [7u8; 32],
    };
    let cmd =
        CreateVault::try_from_parts(&d.to_bytes(), &refs(target, true), &program_id()).unwrap();
    let mut storage = vec![0u8; PostState::LEN + 3];
    storage[PostState::LEN] = 0xaa;
    assert_eq!(cmd.process(true, &mut storage), Ok(()));
    assert_eq!(&storage[PostState::LEN..], &[0xaa, 0, 0]);
    let post = PostState::load_mut(&storage).unwrap();
    assert_eq!(post.is_private, 1);
    assert_eq!(post.title, [b't'; 32]);
    assert_eq!(post.preview_hash, [7u8; 32]);
    assert!(PostState::load(&storage).is_err());
}

#[test]
fn existing_record_is_not_overwritten() {
    let (target, _) = post_target(7);
    let payload = post_payload(7, 1000, hash());
    let cmd = CreateVault::try_from_parts(&payload, &refs(target, true), &program_id()).unwrap();
    let mut storage = vec![0u8; PostState::LEN];
    storage[0] = 1;
    storage[40] = 9;
    let before = storage.clone();
    assert_eq!(cmd.process(true, &mut storage), Err(PostError::AllocationFailed));
    assert_eq!(storage, before);
    let mut fresh = vec![0u8; PostState::LEN];
    assert_eq!(cmd.process(false, &mut fresh), Err(PostError::AllocationFailed));
    assert_eq!(fresh, vec![0u8; PostState::LEN]);
    let mut small = vec![0u8; PostState::LEN - 1];
    assert_eq!(cmd.process(true, &mut small), Err(PostError::BufferTooSmall));
    assert_eq!(small, vec![0u8; PostState::LEN - 1]);
}

#[test]
fn second_creation_is_refused() {
    let (target, _) = post_target(7);
    let first = CreateVault::try_from_parts(&post_payload(7, 1000, hash()), &refs(target, true), &program_id()).unwrap();
    let mut storage = vec![0u8; PostState::LEN];
    assert_eq!(first.process(true, &mut storage), Ok(()));
    let written = storage.clone();
    let second = CreateVault::try_from_parts(&post_payload(7, 5, [1u8; 32]), &refs(target, true), &program_id()).unwrap();
    assert_eq!(second.process(true, &mut storage), Err(PostError::AllocationFailed));
    assert_eq!(storage, written);
}

#[test]
fn address_eq_compares_bytes() {
    let mut a = [5u8; 32];
    assert!(address_eq(&a, &[5u8; 32]));
    a[31] = 6;
    assert!(!address_eq(&a, &[5u8; 32]));
}

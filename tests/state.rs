use fansphere::error::PostError;
use fansphere::state::PostState;

fn sample() -> PostState {
    PostState {
        is_initialized: 1,
        maker: [1u8; 32],
        price: 1000,
        content_hash: [2u8; 32],
        seed: 7,
        bump: [254],
        mint: [3u8; 32],
        is_private: 1,
        title: [b'x'; 32],
        preview_hash: [4u8; 32],
        likes: 0x01020304,
        comments_count: 9,
        subscriber_mint: [5u8; 32],
        tips_total: u64::MAX,
    }
}

#[test]
fn post_len_is_sum_of_fields() {
    assert_eq!(PostState::LEN, 227);
    assert_eq!(sample().to_bytes().len(), PostState::LEN);
}

#[test]
fn post_layout_offsets() {
    let b = sample().to_bytes();
    assert_eq!(b[0], 1);
    assert_eq!(&b[1..33], &[1u8; 32]);
    assert_eq!(&b[33..41], &1000u64.to_le_bytes());
    assert_eq!(&b[41..73], &[2u8; 32]);
    assert_eq!(&b[73..81], &7u64.to_le_bytes());
    assert_eq!(b[81], 254);
    assert_eq!(&b[82..114], &[3u8; 32]);
    assert_eq!(b[114], 1);
    assert_eq!(&b[115..147], &[b'x'; 32]);
    assert_eq!(&b[147..179], &[4u8; 32]);
    assert_eq!(&b[179..183], &[4, 3, 2, 1]);
    assert_eq!(&b[183..187], &9u32.to_le_bytes());
    assert_eq!(&b[187..219], &[5u8; 32]);
    assert_eq!(&b[219..227], &[0xff; 8]);
}

#[test]
fn post_store_then_load() {
    let mut buf = vec![0u8; PostState::LEN];
    sample().store(&mut buf);
    assert_eq!(PostState::load(&buf), Ok(sample()));
    assert_eq!(PostState::load_mut(&buf), Ok(sample()));
}

#[test]
fn post_load_checks_length() {
    let buf = vec![0u8; PostState::LEN - 1];
    assert_eq!(PostState::load(&buf), Err(PostError::BufferTooSmall));
    assert_eq!(PostState::load_mut(&buf), Err(PostError::BufferTooSmall));
    let longer = vec![0u8; PostState::LEN + 1];
    assert_eq!(PostState::load(&longer), Err(PostError::BufferTooSmall));
    assert!(PostState::load_mut(&longer).is_ok());
}

#[test]
fn post_setters() {
    let mut p = sample();
    p.set_price(5);
    assert_eq!(p.price, 5);
    p.set_content_hash([8u8; 32]);
    assert_eq!(p.content_hash, [8u8; 32]);
    p.set_maker([9u8; 32]);
    assert_eq!(p.maker, [9u8; 32]);
    p.set_mint([10u8; 32]);
    assert_eq!(p.mint, [10u8; 32]);
    assert_eq!(p.title, [b'x'; 32]);
    let mut q = sample();
    q.is_initialized = 0;
    q.set_inner([11u8; 32], 12, [13u8; 32], 14, [15], [16u8; 32]);
    assert_eq!(q.is_initialized, 1);
    assert_eq!(q.maker, [11u8; 32]);
    assert_eq!(q.price, 12);
    assert_eq!(q.content_hash, [13u8; 32]);
    assert_eq!(q.seed, 14);
    assert_eq!(q.bump, [15]);
    assert_eq!(q.mint, [16u8; 32]);
    assert_eq!(q.likes, 0x01020304);
    assert_eq!(q.tips_total, u64::MAX);
}

use fansphere::error::PostError;
use fansphere::state::{CommentState, CreatorProfile, LikerRecord, PostState, SubscriptionRecord};

#[test]
fn record_lengths() {
    assert_eq!(CreatorProfile::LEN, 146);
    assert_eq!(CommentState::LEN, 150);
    assert_eq!(LikerRecord::LEN, 66);
    assert_eq!(SubscriptionRecord::LEN, 106);
}

#[test]
fn profile_initialize_and_load() {
    let mut buf = vec![0xffu8; CreatorProfile::LEN + 2];
    assert_eq!(
        CreatorProfile::initialize(&mut buf, [1u8; 32], [b'u'; 32], [2u8; 32], 500, [250]),
        Ok(())
    );
    assert_eq!(&buf[CreatorProfile::LEN..], &[0xff, 0xff]);
    let p = CreatorProfile::load(&buf[..CreatorProfile::LEN]).unwrap();
    assert_eq!(p.is_initialized, 1);
    assert_eq!(p.creator, [1u8; 32]);
    assert_eq!(p.username, [b'u'; 32]);
    assert_eq!(p.avatar_hash, [2u8; 32]);
    assert_eq!(p.subscriber_mint, [0u8; 32]);
    assert_eq!(p.subscription_price, 500);
    assert_eq!(p.total_posts, 0);
    assert_eq!(p.total_subscribers, 0);
    assert_eq!(p.bump, [250]);
    assert_eq!(&buf[129..137], &500u64.to_le_bytes());
    assert_eq!(buf[145], 250);
    assert_eq!(CreatorProfile::load_mut(&buf), Ok(p));
}

#[test]
fn comment_round_trip_with_negative_time() {
    let c = CommentState {
        is_initialized: 1,
        author: [1u8; 32],
        post: [2u8; 32],
        parent: [0u8; 32],
        content_hash: [3u8; 32],
        index: 4,
        reply_count: 5,
        likes: 6,
        created_at: -2,
        bump: [7],
    };
    let b = c.to_bytes();
    assert_eq!(b.len(), CommentState::LEN);
    assert_eq!(&b[129..133], &4u32.to_le_bytes());
    assert_eq!(&b[141..149], &(-2i64).to_le_bytes());
    assert_eq!(b[149], 7);
    assert_eq!(CommentState::load(&b), Ok(c));
}

#[test]
fn comment_initialize_zeroes_counters() {
    let mut buf = vec![9u8; CommentState::LEN];
    assert_eq!(
        CommentState::initialize(&mut buf, [1u8; 32], [2u8; 32], [3u8; 32], [4u8; 32], 8, 1_700_000_000, [5]),
        Ok(())
    );
    let c = CommentState::load(&buf).unwrap();
    assert_eq!(c.parent, [3u8; 32]);
    assert_eq!(c.index, 8);
    assert_eq!(c.reply_count, 0);
    assert_eq!(c.likes, 0);
    assert_eq!(c.created_at, 1_700_000_000);
    let mut small = vec![0u8; CommentState::LEN - 1];
    assert_eq!(
        CommentState::initialize(&mut small, [1u8; 32], [2u8; 32], [3u8; 32], [4u8; 32], 8, 0, [5]),
        Err(PostError::BufferTooSmall)
    );
    assert_eq!(small, vec![0u8; CommentState::LEN - 1]);
}

#[test]
fn like_record_layout() {
    let mut buf = vec![0u8; LikerRecord::LEN];
    assert_eq!(LikerRecord::initialize(&mut buf, [1u8; 32], [2u8; 32], [3]), Ok(()));
    assert_eq!(buf[0], 1);
    assert_eq!(&buf[1..33], &[1u8; 32]);
    assert_eq!(&buf[33..65], &[2u8; 32]);
    assert_eq!(buf[65], 3);
    let l = LikerRecord::load(&buf).unwrap();
    assert_eq!(l.user, [1u8; 32]);
    assert_eq!(l.target, [2u8; 32]);
    assert_eq!(LikerRecord::load(&buf[..65]), Err(PostError::BufferTooSmall));
}

#[test]
fn lifetime_subscription() {
    let mut buf = vec![0u8; SubscriptionRecord::LEN];
    assert_eq!(
        SubscriptionRecord::initialize(&mut buf, [1u8; 32], [2u8; 32], i64::MAX, [3u8; 32], [4]),
        Ok(())
    );
    let s = SubscriptionRecord::load(&buf).unwrap();
    assert_eq!(s.subscriber, [1u8; 32]);
    assert_eq!(s.creator, [2u8; 32]);
    assert_eq!(s.expires_at, i64::MAX);
    assert_eq!(s.nft_mint, [3u8; 32]);
    assert_eq!(s.bump, [4]);
    assert_eq!(&buf[65..73], &i64::MAX.to_le_bytes());
    let mut again = vec![0u8; SubscriptionRecord::LEN + 1];
    s.store(&mut again);
    assert_eq!(SubscriptionRecord::load_mut(&again), Ok(s));
    assert_eq!(SubscriptionRecord::load(&again), Err(PostError::BufferTooSmall));
}

#[test]
fn post_initialize_writes_every_field() {
    let mut buf = vec![0xabu8; PostState::LEN];
    assert_eq!(
        PostState::initialize(&mut buf, [1u8; 32], 10, [2u8; 32], 3, [4], [5u8; 32], 1, [6u8; 32], [7u8; 32]),
        Ok(())
    );
    let p = PostState::load(&buf).unwrap();
    assert_eq!(p.is_initialized, 1);
    assert_eq!(p.price, 10);
    assert_eq!(p.seed, 3);
    assert_eq!(p.mint, [5u8; 32]);
    assert_eq!(p.likes, 0);
    assert_eq!(p.comments_count, 0);
    assert_eq!(p.tips_total, 0);
    assert_eq!(p.subscriber_mint, [0u8; 32]);
}

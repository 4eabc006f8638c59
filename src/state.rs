use vstd::bytes::{
    spec_u32_from_le_bytes, spec_u32_to_le_bytes, spec_u64_from_le_bytes, spec_u64_to_le_bytes,
    u32_from_le_bytes, u32_to_le_bytes, u64_from_le_bytes, u64_to_le_bytes,
};
use vstd::prelude::*;
use vstd::slice::slice_subrange;

use crate::bytes::{push_all, read_array32, write_head, zeros32};
use crate::error::PostError;

verus! {

/// A 32-byte account address.
pub type Address = [u8; 32];

/// A post, stored as a flat little-endian record of `PostState::LEN` bytes.
///
/// Field offsets: initialized flag 0, maker 1, price 33, content hash 41,
/// sequence 73, bump 81, mint 82, visibility 114, title 115, preview hash 147,
/// likes 179, comment count 183, subscriber mint 187, tip total 219.
#[derive(Debug, Clone, Copy, PartialEq, Eq)]
pub struct PostState {
    pub is_initialized: u8,
    pub maker: Address,
    pub price: u64,
    pub content_hash: [u8; 32],
    pub seed: u64,
    pub bump: [u8; 1],
    pub mint: Address,
    /// 0 for public, 1 for subscribers only.
    pub is_private: u8,
    /// UTF-8, at most 32 bytes, zero padded.
    pub title: [u8; 32],
    pub preview_hash: [u8; 32],
    pub likes: u32,
    pub comments_count: u32,
    pub subscriber_mint: Address,
    pub tips_total: u64,
}

/// The bytes that store `p`.
pub open spec fn post_bytes(p: PostState) -> Seq<u8> {
    seq![p.is_initialized] + p.maker@ + spec_u64_to_le_bytes(p.price) + p.content_hash@
        + spec_u64_to_le_bytes(p.seed) + p.bump@ + p.mint@ + seq![p.is_private] + p.title@
        + p.preview_hash@ + spec_u32_to_le_bytes(p.likes) + spec_u32_to_le_bytes(
        p.comments_count,
    ) + p.subscriber_mint@ + spec_u64_to_le_bytes(p.tips_total)
}

/// `p` is the record that the first `PostState::LEN` bytes of `s` hold.
pub open spec fn post_from(p: PostState, s: Seq<u8>) -> bool {
    &&& s.len() >= 227
    &&& p.is_initialized == s[0]
    &&& p.maker@ == s.subrange(1, 33)
    &&& p.price == spec_u64_from_le_bytes(s.subrange(33, 41))
    &&& p.content_hash@ == s.subrange(41, 73)
    &&& p.seed == spec_u64_from_le_bytes(s.subrange(73, 81))
    &&& p.bump@ == s.subrange(81, 82)
    &&& p.mint@ == s.subrange(82, 114)
    &&& p.is_private == s[114]
    &&& p.title@ == s.subrange(115, 147)
    &&& p.preview_hash@ == s.subrange(147, 179)
    &&& p.likes == spec_u32_from_le_bytes(s.subrange(179, 183))
    &&& p.comments_count == spec_u32_from_le_bytes(s.subrange(183, 187))
    &&& p.subscriber_mint@ == s.subrange(187, 219)
    &&& p.tips_total == spec_u64_from_le_bytes(s.subrange(219, 227))
}

/// Reading the bytes that store a post gives the post back, and a buffer of
/// exactly `PostState::LEN` bytes is the storage of the post read from it.
pub proof fn lemma_post_bytes_round_trip(p: PostState, s: Seq<u8>)
    ensures
        post_bytes(p).len() == PostState::LEN,
        post_from(p, post_bytes(p)),
        post_from(p, s) && s.len() == PostState::LEN ==> post_bytes(p) == s,
{
    vstd::bytes::lemma_auto_spec_u64_to_from_le_bytes();
    vstd::bytes::lemma_auto_spec_u32_to_from_le_bytes();
    let b = post_bytes(p);
    assert(b.subrange(1, 33) =~= p.maker@);
    assert(b.subrange(33, 41) =~= spec_u64_to_le_bytes(p.price));
    assert(b.subrange(41, 73) =~= p.content_hash@);
    assert(b.subrange(73, 81) =~= spec_u64_to_le_bytes(p.seed));
    assert(b.subrange(81, 82) =~= p.bump@);
    assert(b.subrange(82, 114) =~= p.mint@);
    assert(b.subrange(115, 147) =~= p.title@);
    assert(b.subrange(147, 179) =~= p.preview_hash@);
    assert(b.subrange(179, 183) =~= spec_u32_to_le_bytes(p.likes));
    assert(b.subrange(183, 187) =~= spec_u32_to_le_bytes(p.comments_count));
    assert(b.subrange(187, 219) =~= p.subscriber_mint@);
    assert(b.subrange(219, 227) =~= spec_u64_to_le_bytes(p.tips_total));
    if post_from(p, s) && s.len() == PostState::LEN {
        assert(spec_u64_to_le_bytes(p.price) == s.subrange(33, 41));
        assert(spec_u64_to_le_bytes(p.seed) == s.subrange(73, 81));
        assert(spec_u32_to_le_bytes(p.likes) == s.subrange(179, 183));
        assert(spec_u32_to_le_bytes(p.comments_count) == s.subrange(183, 187));
        assert(spec_u64_to_le_bytes(p.tips_total) == s.subrange(219, 227));
        assert(b =~= s);
    }
}

/// `p` is a newly created post with the given fields: initialized, no likes,
/// comments or tips, and an all-zero subscriber mint.
pub open spec fn fresh_post(
    p: PostState,
    maker: Address,
    price: u64,
    content_hash: [u8; 32],
    seed: u64,
    bump: [u8; 1],
    mint: Address,
    is_private: u8,
    title: [u8; 32],
    preview_hash: [u8; 32],
) -> bool {
    &&& p.is_initialized == 1
    &&& p.maker == maker
    &&& p.price == price
    &&& p.content_hash == content_hash
    &&& p.seed == seed
    &&& p.bump == bump
    &&& p.mint == mint
    &&& p.is_private == is_private
    &&& p.title == title
    &&& p.preview_hash == preview_hash
    &&& p.likes == 0
    &&& p.comments_count == 0
    &&& p.subscriber_mint@ == zeros32()
    &&& p.tips_total == 0
}

/// A buffer holds one post at most: two posts read from the same bytes are equal.
pub proof fn lemma_post_from_unique(p: PostState, q: PostState, s: Seq<u8>)
    requires
        post_from(p, s),
        post_from(q, s),
    ensures
        p == q,
{
    assert(p.maker =~= q.maker);
    assert(p.content_hash =~= q.content_hash);
    assert(p.bump =~= q.bump);
    assert(p.mint =~= q.mint);
    assert(p.title =~= q.title);
    assert(p.preview_hash =~= q.preview_hash);
    assert(p.subscriber_mint =~= q.subscriber_mint);
}

/// Bytes after the first `PostState::LEN` do not change the post read.
pub proof fn lemma_post_from_head(p: PostState, s: Seq<u8>, rest: Seq<u8>)
    requires
        post_from(p, s),
        s.len() == PostState::LEN,
    ensures
        post_from(p, s + rest),
{
    let t = s + rest;
    assert(t.subrange(1, 33) =~= s.subrange(1, 33));
    assert(t.subrange(33, 41) =~= s.subrange(33, 41));
    assert(t.subrange(41, 73) =~= s.subrange(41, 73));
    assert(t.subrange(73, 81) =~= s.subrange(73, 81));
    assert(t.subrange(81, 82) =~= s.subrange(81, 82));
    assert(t.subrange(82, 114) =~= s.subrange(82, 114));
    assert(t.subrange(115, 147) =~= s.subrange(115, 147));
    assert(t.subrange(147, 179) =~= s.subrange(147, 179));
    assert(t.subrange(179, 183) =~= s.subrange(179, 183));
    assert(t.subrange(183, 187) =~= s.subrange(183, 187));
    assert(t.subrange(187, 219) =~= s.subrange(187, 219));
    assert(t.subrange(219, 227) =~= s.subrange(219, 227));
}

impl PostState {
    /// Byte length of a stored post: the sum of its field widths.
    pub const LEN: usize = 227;

    /// Reads the post stored in the head of a buffer of at least `LEN` bytes.
    fn read(bytes: &[u8]) -> (r: PostState)
        requires
            bytes@.len() >= PostState::LEN,
        ensures
            post_from(r, bytes@),
    {
        let bump: [u8; 1] = [bytes[81]];
        assert(bump@ =~= bytes@.subrange(81, 82));
        PostState {
            is_initialized: bytes[0],
            maker: read_array32(bytes, 1),
            price: u64_from_le_bytes(slice_subrange(bytes, 33, 41)),
            content_hash: read_array32(bytes, 41),
            seed: u64_from_le_bytes(slice_subrange(bytes, 73, 81)),
            bump,
            mint: read_array32(bytes, 82),
            is_private: bytes[114],
            title: read_array32(bytes, 115),
            preview_hash: read_array32(bytes, 147),
            likes: u32_from_le_bytes(slice_subrange(bytes, 179, 183)),
            comments_count: u32_from_le_bytes(slice_subrange(bytes, 183, 187)),
            subscriber_mint: read_array32(bytes, 187),
            tips_total: u64_from_le_bytes(slice_subrange(bytes, 219, 227)),
        }
    }

    /// Reads the post at the head of a buffer that will be written back with
    /// `store`; fails with `BufferTooSmall` when the buffer is shorter than `LEN`.
    pub fn load_mut(bytes: &[u8]) -> (r: Result<PostState, PostError>)
        ensures
            bytes@.len() < PostState::LEN <==> r == Err::<PostState, PostError>(
                PostError::BufferTooSmall,
            ),
            r is Ok <==> bytes@.len() >= PostState::LEN,
            r matches Ok(p) ==> post_from(p, bytes@),
    {
        if bytes.len() < Self::LEN {
            return Err(PostError::BufferTooSmall);
        }
        Ok(Self::read(bytes))
    }

    /// Reads the post that a buffer holds; fails with `BufferTooSmall` unless
    /// the buffer is exactly `LEN` bytes long.
    pub fn load(bytes: &[u8]) -> (r: Result<PostState, PostError>)
        ensures
            bytes@.len() != PostState::LEN <==> r == Err::<PostState, PostError>(
                PostError::BufferTooSmall,
            ),
            r is Ok <==> bytes@.len() == PostState::LEN,
            r matches Ok(p) ==> post_from(p, bytes@) && post_bytes(p) == bytes@,
    {
        if bytes.len() != Self::LEN {
            return Err(PostError::BufferTooSmall);
        }
        let p = Self::read(bytes);
        proof {
            lemma_post_bytes_round_trip(p, bytes@);
        }
        Ok(p)
    }

    /// Marks the post initialized and sets its core fields; the visibility,
    /// title, preview hash, counters and subscriber mint keep their values.
    pub fn set_inner(
        &mut self,
        maker: Address,
        price: u64,
        content_hash: [u8; 32],
        seed: u64,
        bump: [u8; 1],
        mint: Address,
    )
        ensures
            *final(self) == (PostState {
                is_initialized: 1,
                maker,
                price,
                content_hash,
                seed,
                bump,
                mint,
                ..*old(self)
            }),
    {
        self.is_initialized = 1;
        self.maker = maker;
        self.mint = mint;
        self.price = price;
        self.content_hash = content_hash;
        self.bump = bump;
        self.seed = seed;
    }

    /// Changes the price.
    pub fn set_price(&mut self, price: u64)
        ensures
            *final(self) == (PostState { price, ..*old(self) }),
    {
        self.price = price;
    }

    /// Changes the content hash.
    pub fn set_content_hash(&mut self, content_hash: [u8; 32])
        ensures
            *final(self) == (PostState { content_hash, ..*old(self) }),
    {
        self.content_hash = content_hash;
    }

    /// Changes the owner.
    pub fn set_maker(&mut self, maker: Address)
        ensures
            *final(self) == (PostState { maker, ..*old(self) }),
    {
        self.maker = maker;
    }

    /// Changes the mint reference.
    pub fn set_mint(&mut self, mint: Address)
        ensures
            *final(self) == (PostState { mint, ..*old(self) }),
    {
        self.mint = mint;
    }

    /// Writes a new post at the head of `bytes`: initialized, the given
    /// fields, no likes, comments or tips and an all-zero subscriber mint.
    /// Fails with `BufferTooSmall`, leaving `bytes` as it was, when it is
    /// shorter than `LEN`.
    pub fn initialize(
        bytes: &mut Vec<u8>,
        maker: Address,
        price: u64,
        content_hash: [u8; 32],
        seed: u64,
        bump: [u8; 1],
        mint: Address,
        is_private: u8,
        title: [u8; 32],
        preview_hash: [u8; 32],
    ) -> (r: Result<(), PostError>)
        ensures
            old(bytes)@.len() < PostState::LEN <==> r == Err::<(), PostError>(
                PostError::BufferTooSmall,
            ),
            r is Ok <==> old(bytes)@.len() >= PostState::LEN,
            r is Err ==> final(bytes)@ == old(bytes)@,
            r is Ok ==> exists|p: PostState|
                {
                    &&& fresh_post(
                        p,
                        maker,
                        price,
                        content_hash,
                        seed,
                        bump,
                        mint,
                        is_private,
                        title,
                        preview_hash,
                    )
                    &&& final(bytes)@ == post_bytes(p) + old(bytes)@.subrange(
                        PostState::LEN as int,
                        old(bytes)@.len() as int,
                    )
                },
    {
        if bytes.len() < Self::LEN {
            return Err(PostError::BufferTooSmall);
        }
        let p = PostState {
            is_initialized: 1,
            maker,
            price,
            content_hash,
            seed,
            bump,
            mint,
            is_private,
            title,
            preview_hash,
            likes: 0,
            comments_count: 0,
            subscriber_mint: [0u8; 32],
            tips_total: 0,
        };
        assert(p.subscriber_mint@ =~= zeros32());
        assert(fresh_post(
            p,
            maker,
            price,
            content_hash,
            seed,
            bump,
            mint,
            is_private,
            title,
            preview_hash,
        ));
        p.store(bytes);
        Ok(())
    }

    /// The `LEN` bytes that store this post.
    pub fn to_bytes(&self) -> (r: Vec<u8>)
        ensures
            r@ == post_bytes(*self),
            r@.len() == PostState::LEN,
    {
        let mut v: Vec<u8> = Vec::new();
        v.push(self.is_initialized);
        push_all(&mut v, &self.maker);
        push_all(&mut v, u64_to_le_bytes(self.price).as_slice());
        push_all(&mut v, &self.content_hash);
        push_all(&mut v, u64_to_le_bytes(self.seed).as_slice());
        push_all(&mut v, &self.bump);
        push_all(&mut v, &self.mint);
        v.push(self.is_private);
        push_all(&mut v, &self.title);
        push_all(&mut v, &self.preview_hash);
        push_all(&mut v, u32_to_le_bytes(self.likes).as_slice());
        push_all(&mut v, u32_to_le_bytes(self.comments_count).as_slice());
        push_all(&mut v, &self.subscriber_mint);
        push_all(&mut v, u64_to_le_bytes(self.tips_total).as_slice());
        proof {
            lemma_post_bytes_round_trip(*self, v@);
            assert(v@ =~= post_bytes(*self));
        }
        v
    }

    /// Writes this post over the head of a buffer of at least `LEN` bytes,
    /// leaving the bytes after it unchanged.
    pub fn store(&self, bytes: &mut Vec<u8>)
        requires
            old(bytes)@.len() >= PostState::LEN,
        ensures
            final(bytes)@ == post_bytes(*self) + old(bytes)@.subrange(
                PostState::LEN as int,
                old(bytes)@.len() as int,
            ),
    {
        let v = self.to_bytes();
        write_head(bytes, &v);
    }
}

/// A signed 64-bit value survives the trip through its unsigned bit pattern.
proof fn lemma_i64_u64_round_trip(x: i64)
    ensures
        (x as u64) as i64 == x,
{
    assert((x as u64) as i64 == x) by (bit_vector);
}

/// An unsigned 64-bit value survives the trip through its signed reading.
proof fn lemma_u64_i64_round_trip(x: u64)
    ensures
        (x as i64) as u64 == x,
{
    assert((x as i64) as u64 == x) by (bit_vector);
}

/// A creator's profile, stored as a flat little-endian record of `CreatorProfile::LEN` bytes.
///
/// Field offsets: is initialized 0, creator 1, username 33, avatar hash 65, subscriber mint 97, subscription price 129, total posts 137, total subscribers 141, bump 145.
#[derive(Debug, Clone, Copy, PartialEq, Eq)]
pub struct CreatorProfile {
    pub is_initialized: u8,
    pub creator: Address,
    /// UTF-8, at most 32 bytes, zero padded.
    pub username: [u8; 32],
    pub avatar_hash: [u8; 32],
    /// The token that subscribers hold.
    pub subscriber_mint: Address,
    pub subscription_price: u64,
    pub total_posts: u32,
    pub total_subscribers: u32,
    pub bump: [u8; 1],
}

/// The bytes that store `r`.
pub open spec fn profile_bytes(r: CreatorProfile) -> Seq<u8> {
    seq![r.is_initialized]
        + r.creator@
        + r.username@
        + r.avatar_hash@
        + r.subscriber_mint@
        + spec_u64_to_le_bytes(r.subscription_price)
        + spec_u32_to_le_bytes(r.total_posts)
        + spec_u32_to_le_bytes(r.total_subscribers)
        + r.bump@
}

/// `r` is the record that the first `CreatorProfile::LEN` bytes of `s` hold.
pub open spec fn profile_from(r: CreatorProfile, s: Seq<u8>) -> bool {
    &&& s.len() >= 146
    &&& r.is_initialized == s[0]
    &&& r.creator@ == s.subrange(1, 33)
    &&& r.username@ == s.subrange(33, 65)
    &&& r.avatar_hash@ == s.subrange(65, 97)
    &&& r.subscriber_mint@ == s.subrange(97, 129)
    &&& r.subscription_price == spec_u64_from_le_bytes(s.subrange(129, 137))
    &&& r.total_posts == spec_u32_from_le_bytes(s.subrange(137, 141))
    &&& r.total_subscribers == spec_u32_from_le_bytes(s.subrange(141, 145))
    &&& r.bump@ == s.subrange(145, 146)
}

/// Reading the bytes that store a record gives it back, and a buffer of
/// exactly `CreatorProfile::LEN` bytes is the storage of the record read from it.
pub proof fn lemma_profile_bytes_round_trip(r: CreatorProfile, s: Seq<u8>)
    ensures
        profile_bytes(r).len() == CreatorProfile::LEN,
        profile_from(r, profile_bytes(r)),
        profile_from(r, s) && s.len() == CreatorProfile::LEN ==> profile_bytes(r) == s,
{
    vstd::bytes::lemma_auto_spec_u64_to_from_le_bytes();
    vstd::bytes::lemma_auto_spec_u32_to_from_le_bytes();
    let b = profile_bytes(r);
    assert(b.subrange(1, 33) =~= r.creator@);
    assert(b.subrange(33, 65) =~= r.username@);
    assert(b.subrange(65, 97) =~= r.avatar_hash@);
    assert(b.subrange(97, 129) =~= r.subscriber_mint@);
    assert(b.subrange(129, 137) =~= spec_u64_to_le_bytes(r.subscription_price));
    assert(b.subrange(137, 141) =~= spec_u32_to_le_bytes(r.total_posts));
    assert(b.subrange(141, 145) =~= spec_u32_to_le_bytes(r.total_subscribers));
    assert(b.subrange(145, 146) =~= r.bump@);
    if profile_from(r, s) && s.len() == CreatorProfile::LEN {
        assert(spec_u64_to_le_bytes(r.subscription_price) == s.subrange(129, 137));
        assert(spec_u32_to_le_bytes(r.total_posts) == s.subrange(137, 141));
        assert(spec_u32_to_le_bytes(r.total_subscribers) == s.subrange(141, 145));
        assert(b =~= s);
    }
}

impl CreatorProfile {
    /// Byte length of a stored record: the sum of its field widths.
    pub const LEN: usize = 146;

    /// Reads the record stored in the head of a buffer of at least `LEN` bytes.
    fn read(bytes: &[u8]) -> (r: CreatorProfile)
        requires
            bytes@.len() >= CreatorProfile::LEN,
        ensures
            profile_from(r, bytes@),
    {
        let bump: [u8; 1] = [bytes[145]];
        assert(bump@ =~= bytes@.subrange(145, 146));
        CreatorProfile {
            is_initialized: bytes[0],
            creator: read_array32(bytes, 1),
            username: read_array32(bytes, 33),
            avatar_hash: read_array32(bytes, 65),
            subscriber_mint: read_array32(bytes, 97),
            subscription_price: u64_from_le_bytes(slice_subrange(bytes, 129, 137)),
            total_posts: u32_from_le_bytes(slice_subrange(bytes, 137, 141)),
            total_subscribers: u32_from_le_bytes(slice_subrange(bytes, 141, 145)),
            bump,
        }
    }

    /// Reads the record at the head of a buffer that will be written back
    /// with `store`; fails with `BufferTooSmall` when the buffer is shorter
    /// than `LEN`.
    pub fn load_mut(bytes: &[u8]) -> (r: Result<CreatorProfile, PostError>)
        ensures
            bytes@.len() < CreatorProfile::LEN <==> r == Err::<CreatorProfile, PostError>(
                PostError::BufferTooSmall,
            ),
            r is Ok <==> bytes@.len() >= CreatorProfile::LEN,
            r matches Ok(p) ==> profile_from(p, bytes@),
    {
        if bytes.len() < Self::LEN {
            return Err(PostError::BufferTooSmall);
        }
        Ok(Self::read(bytes))
    }

    /// Reads the record that a buffer holds; fails with `BufferTooSmall`
    /// unless the buffer is exactly `LEN` bytes long.
    pub fn load(bytes: &[u8]) -> (r: Result<CreatorProfile, PostError>)
        ensures
            bytes@.len() != CreatorProfile::LEN <==> r == Err::<CreatorProfile, PostError>(
                PostError::BufferTooSmall,
            ),
            r is Ok <==> bytes@.len() == CreatorProfile::LEN,
            r matches Ok(p) ==> profile_from(p, bytes@) && profile_bytes(p) == bytes@,
    {
        if bytes.len() != Self::LEN {
            return Err(PostError::BufferTooSmall);
        }
        let p = Self::read(bytes);
        proof {
            lemma_profile_bytes_round_trip(p, bytes@);
        }
        Ok(p)
    }

    /// The `LEN` bytes that store this record.
    pub fn to_bytes(&self) -> (r: Vec<u8>)
        ensures
            r@ == profile_bytes(*self),
            r@.len() == CreatorProfile::LEN,
    {
        let mut v: Vec<u8> = Vec::new();
        v.push(self.is_initialized);
        push_all(&mut v, &self.creator);
        push_all(&mut v, &self.username);
        push_all(&mut v, &self.avatar_hash);
        push_all(&mut v, &self.subscriber_mint);
        push_all(&mut v, u64_to_le_bytes(self.subscription_price).as_slice());
        push_all(&mut v, u32_to_le_bytes(self.total_posts).as_slice());
        push_all(&mut v, u32_to_le_bytes(self.total_subscribers).as_slice());
        push_all(&mut v, &self.bump);
        proof {
            lemma_profile_bytes_round_trip(*self, v@);
            assert(v@ =~= profile_bytes(*self));
        }
        v
    }

    /// Writes this record over the head of a buffer of at least `LEN` bytes,
    /// leaving the bytes after it unchanged.
    pub fn store(&self, bytes: &mut Vec<u8>)
        requires
            old(bytes)@.len() >= CreatorProfile::LEN,
        ensures
            final(bytes)@ == profile_bytes(*self) + old(bytes)@.subrange(
                CreatorProfile::LEN as int,
                old(bytes)@.len() as int,
            ),
    {
        let v = self.to_bytes();
        write_head(bytes, &v);
    }
}

/// A comment on a post, or a reply to a comment, stored as a flat little-endian record of `CommentState::LEN` bytes.
///
/// Field offsets: is initialized 0, author 1, post 33, parent 65, content hash 97, index 129, reply count 133, likes 137, created at 141, bump 149.
#[derive(Debug, Clone, Copy, PartialEq, Eq)]
pub struct CommentState {
    pub is_initialized: u8,
    pub author: Address,
    /// The post that the thread belongs to.
    pub post: Address,
    /// All zero for a comment on the post itself; else the comment replied to.
    pub parent: Address,
    pub content_hash: [u8; 32],
    /// Position among the parent's comments or replies.
    pub index: u32,
    pub reply_count: u32,
    pub likes: u32,
    /// Creation time, in seconds.
    pub created_at: i64,
    pub bump: [u8; 1],
}

/// The bytes that store `r`.
pub open spec fn comment_bytes(r: CommentState) -> Seq<u8> {
    seq![r.is_initialized]
        + r.author@
        + r.post@
        + r.parent@
        + r.content_hash@
        + spec_u32_to_le_bytes(r.index)
        + spec_u32_to_le_bytes(r.reply_count)
        + spec_u32_to_le_bytes(r.likes)
        + spec_u64_to_le_bytes(r.created_at as u64)
        + r.bump@
}

/// `r` is the record that the first `CommentState::LEN` bytes of `s` hold.
pub open spec fn comment_from(r: CommentState, s: Seq<u8>) -> bool {
    &&& s.len() >= 150
    &&& r.is_initialized == s[0]
    &&& r.author@ == s.subrange(1, 33)
    &&& r.post@ == s.subrange(33, 65)
    &&& r.parent@ == s.subrange(65, 97)
    &&& r.content_hash@ == s.subrange(97, 129)
    &&& r.index == spec_u32_from_le_bytes(s.subrange(129, 133))
    &&& r.reply_count == spec_u32_from_le_bytes(s.subrange(133, 137))
    &&& r.likes == spec_u32_from_le_bytes(s.subrange(137, 141))
    &&& r.created_at == spec_u64_from_le_bytes(s.subrange(141, 149)) as i64
    &&& r.bump@ == s.subrange(149, 150)
}

/// Reading the bytes that store a record gives it back, and a buffer of
/// exactly `CommentState::LEN` bytes is the storage of the record read from it.
pub proof fn lemma_comment_bytes_round_trip(r: CommentState, s: Seq<u8>)
    ensures
        comment_bytes(r).len() == CommentState::LEN,
        comment_from(r, comment_bytes(r)),
        comment_from(r, s) && s.len() == CommentState::LEN ==> comment_bytes(r) == s,
{
    vstd::bytes::lemma_auto_spec_u64_to_from_le_bytes();
    vstd::bytes::lemma_auto_spec_u32_to_from_le_bytes();
    let b = comment_bytes(r);
    assert(b.subrange(1, 33) =~= r.author@);
    assert(b.subrange(33, 65) =~= r.post@);
    assert(b.subrange(65, 97) =~= r.parent@);
    assert(b.subrange(97, 129) =~= r.content_hash@);
    assert(b.subrange(129, 133) =~= spec_u32_to_le_bytes(r.index));
    assert(b.subrange(133, 137) =~= spec_u32_to_le_bytes(r.reply_count));
    assert(b.subrange(137, 141) =~= spec_u32_to_le_bytes(r.likes));
    assert(b.subrange(141, 149) =~= spec_u64_to_le_bytes(r.created_at as u64));
    lemma_i64_u64_round_trip(r.created_at);
    assert(b.subrange(149, 150) =~= r.bump@);
    if comment_from(r, s) && s.len() == CommentState::LEN {
        assert(spec_u32_to_le_bytes(r.index) == s.subrange(129, 133));
        assert(spec_u32_to_le_bytes(r.reply_count) == s.subrange(133, 137));
        assert(spec_u32_to_le_bytes(r.likes) == s.subrange(137, 141));
        lemma_u64_i64_round_trip(spec_u64_from_le_bytes(s.subrange(141, 149)));
        assert(spec_u64_to_le_bytes(r.created_at as u64) == s.subrange(141, 149));
        assert(b =~= s);
    }
}

impl CommentState {
    /// Byte length of a stored record: the sum of its field widths.
    pub const LEN: usize = 150;

    /// Reads the record stored in the head of a buffer of at least `LEN` bytes.
    fn read(bytes: &[u8]) -> (r: CommentState)
        requires
            bytes@.len() >= CommentState::LEN,
        ensures
            comment_from(r, bytes@),
    {
        let bump: [u8; 1] = [bytes[149]];
        assert(bump@ =~= bytes@.subrange(149, 150));
        CommentState {
            is_initialized: bytes[0],
            author: read_array32(bytes, 1),
            post: read_array32(bytes, 33),
            parent: read_array32(bytes, 65),
            content_hash: read_array32(bytes, 97),
            index: u32_from_le_bytes(slice_subrange(bytes, 129, 133)),
            reply_count: u32_from_le_bytes(slice_subrange(bytes, 133, 137)),
            likes: u32_from_le_bytes(slice_subrange(bytes, 137, 141)),
            created_at: u64_from_le_bytes(slice_subrange(bytes, 141, 149)) as i64,
            bump,
        }
    }

    /// Reads the record at the head of a buffer that will be written back
    /// with `store`; fails with `BufferTooSmall` when the buffer is shorter
    /// than `LEN`.
    pub fn load_mut(bytes: &[u8]) -> (r: Result<CommentState, PostError>)
        ensures
            bytes@.len() < CommentState::LEN <==> r == Err::<CommentState, PostError>(
                PostError::BufferTooSmall,
            ),
            r is Ok <==> bytes@.len() >= CommentState::LEN,
            r matches Ok(p) ==> comment_from(p, bytes@),
    {
        if bytes.len() < Self::LEN {
            return Err(PostError::BufferTooSmall);
        }
        Ok(Self::read(bytes))
    }

    /// Reads the record that a buffer holds; fails with `BufferTooSmall`
    /// unless the buffer is exactly `LEN` bytes long.
    pub fn load(bytes: &[u8]) -> (r: Result<CommentState, PostError>)
        ensures
            bytes@.len() != CommentState::LEN <==> r == Err::<CommentState, PostError>(
                PostError::BufferTooSmall,
            ),
            r is Ok <==> bytes@.len() == CommentState::LEN,
            r matches Ok(p) ==> comment_from(p, bytes@) && comment_bytes(p) == bytes@,
    {
        if bytes.len() != Self::LEN {
            return Err(PostError::BufferTooSmall);
        }
        let p = Self::read(bytes);
        proof {
            lemma_comment_bytes_round_trip(p, bytes@);
        }
        Ok(p)
    }

    /// The `LEN` bytes that store this record.
    pub fn to_bytes(&self) -> (r: Vec<u8>)
        ensures
            r@ == comment_bytes(*self),
            r@.len() == CommentState::LEN,
    {
        let mut v: Vec<u8> = Vec::new();
        v.push(self.is_initialized);
        push_all(&mut v, &self.author);
        push_all(&mut v, &self.post);
        push_all(&mut v, &self.parent);
        push_all(&mut v, &self.content_hash);
        push_all(&mut v, u32_to_le_bytes(self.index).as_slice());
        push_all(&mut v, u32_to_le_bytes(self.reply_count).as_slice());
        push_all(&mut v, u32_to_le_bytes(self.likes).as_slice());
        push_all(&mut v, u64_to_le_bytes(self.created_at as u64).as_slice());
        push_all(&mut v, &self.bump);
        proof {
            lemma_comment_bytes_round_trip(*self, v@);
            assert(v@ =~= comment_bytes(*self));
        }
        v
    }

    /// Writes this record over the head of a buffer of at least `LEN` bytes,
    /// leaving the bytes after it unchanged.
    pub fn store(&self, bytes: &mut Vec<u8>)
        requires
            old(bytes)@.len() >= CommentState::LEN,
        ensures
            final(bytes)@ == comment_bytes(*self) + old(bytes)@.subrange(
                CommentState::LEN as int,
                old(bytes)@.len() as int,
            ),
    {
        let v = self.to_bytes();
        write_head(bytes, &v);
    }
}

/// The fact that a user liked a post or a comment, stored as a flat little-endian record of `LikerRecord::LEN` bytes.
///
/// Field offsets: is initialized 0, user 1, target 33, bump 65.
#[derive(Debug, Clone, Copy, PartialEq, Eq)]
pub struct LikerRecord {
    pub is_initialized: u8,
    pub user: Address,
    /// The post or comment liked.
    pub target: Address,
    pub bump: [u8; 1],
}

/// The bytes that store `r`.
pub open spec fn like_bytes(r: LikerRecord) -> Seq<u8> {
    seq![r.is_initialized]
        + r.user@
        + r.target@
        + r.bump@
}

/// `r` is the record that the first `LikerRecord::LEN` bytes of `s` hold.
pub open spec fn like_from(r: LikerRecord, s: Seq<u8>) -> bool {
    &&& s.len() >= 66
    &&& r.is_initialized == s[0]
    &&& r.user@ == s.subrange(1, 33)
    &&& r.target@ == s.subrange(33, 65)
    &&& r.bump@ == s.subrange(65, 66)
}

/// Reading the bytes that store a record gives it back, and a buffer of
/// exactly `LikerRecord::LEN` bytes is the storage of the record read from it.
pub proof fn lemma_like_bytes_round_trip(r: LikerRecord, s: Seq<u8>)
    ensures
        like_bytes(r).len() == LikerRecord::LEN,
        like_from(r, like_bytes(r)),
        like_from(r, s) && s.len() == LikerRecord::LEN ==> like_bytes(r) == s,
{
    vstd::bytes::lemma_auto_spec_u64_to_from_le_bytes();
    vstd::bytes::lemma_auto_spec_u32_to_from_le_bytes();
    let b = like_bytes(r);
    assert(b.subrange(1, 33) =~= r.user@);
    assert(b.subrange(33, 65) =~= r.target@);
    assert(b.subrange(65, 66) =~= r.bump@);
    if like_from(r, s) && s.len() == LikerRecord::LEN {
        assert(b =~= s);
    }
}

impl LikerRecord {
    /// Byte length of a stored record: the sum of its field widths.
    pub const LEN: usize = 66;

    /// Reads the record stored in the head of a buffer of at least `LEN` bytes.
    fn read(bytes: &[u8]) -> (r: LikerRecord)
        requires
            bytes@.len() >= LikerRecord::LEN,
        ensures
            like_from(r, bytes@),
    {
        let bump: [u8; 1] = [bytes[65]];
        assert(bump@ =~= bytes@.subrange(65, 66));
        LikerRecord {
            is_initialized: bytes[0],
            user: read_array32(bytes, 1),
            target: read_array32(bytes, 33),
            bump,
        }
    }

    /// Reads the record at the head of a buffer that will be written back
    /// with `store`; fails with `BufferTooSmall` when the buffer is shorter
    /// than `LEN`.
    pub fn load_mut(bytes: &[u8]) -> (r: Result<LikerRecord, PostError>)
        ensures
            bytes@.len() < LikerRecord::LEN <==> r == Err::<LikerRecord, PostError>(
                PostError::BufferTooSmall,
            ),
            r is Ok <==> bytes@.len() >= LikerRecord::LEN,
            r matches Ok(p) ==> like_from(p, bytes@),
    {
        if bytes.len() < Self::LEN {
            return Err(PostError::BufferTooSmall);
        }
        Ok(Self::read(bytes))
    }

    /// Reads the record that a buffer holds; fails with `BufferTooSmall`
    /// unless the buffer is exactly `LEN` bytes long.
    pub fn load(bytes: &[u8]) -> (r: Result<LikerRecord, PostError>)
        ensures
            bytes@.len() != LikerRecord::LEN <==> r == Err::<LikerRecord, PostError>(
                PostError::BufferTooSmall,
            ),
            r is Ok <==> bytes@.len() == LikerRecord::LEN,
            r matches Ok(p) ==> like_from(p, bytes@) && like_bytes(p) == bytes@,
    {
        if bytes.len() != Self::LEN {
            return Err(PostError::BufferTooSmall);
        }
        let p = Self::read(bytes);
        proof {
            lemma_like_bytes_round_trip(p, bytes@);
        }
        Ok(p)
    }

    /// The `LEN` bytes that store this record.
    pub fn to_bytes(&self) -> (r: Vec<u8>)
        ensures
            r@ == like_bytes(*self),
            r@.len() == LikerRecord::LEN,
    {
        let mut v: Vec<u8> = Vec::new();
        v.push(self.is_initialized);
        push_all(&mut v, &self.user);
        push_all(&mut v, &self.target);
        push_all(&mut v, &self.bump);
        proof {
            lemma_like_bytes_round_trip(*self, v@);
            assert(v@ =~= like_bytes(*self));
        }
        v
    }

    /// Writes this record over the head of a buffer of at least `LEN` bytes,
    /// leaving the bytes after it unchanged.
    pub fn store(&self, bytes: &mut Vec<u8>)
        requires
            old(bytes)@.len() >= LikerRecord::LEN,
        ensures
            final(bytes)@ == like_bytes(*self) + old(bytes)@.subrange(
                LikerRecord::LEN as int,
                old(bytes)@.len() as int,
            ),
    {
        let v = self.to_bytes();
        write_head(bytes, &v);
    }
}

/// A subscription of a user to a creator, stored as a flat little-endian record of `SubscriptionRecord::LEN` bytes.
///
/// Field offsets: is initialized 0, subscriber 1, creator 33, expires at 65, nft mint 73, bump 105.
#[derive(Debug, Clone, Copy, PartialEq, Eq)]
pub struct SubscriptionRecord {
    pub is_initialized: u8,
    pub subscriber: Address,
    pub creator: Address,
    /// Expiry time, in seconds; `i64::MAX` for a lifetime subscription.
    pub expires_at: i64,
    pub nft_mint: Address,
    pub bump: [u8; 1],
}

/// The bytes that store `r`.
pub open spec fn subscription_bytes(r: SubscriptionRecord) -> Seq<u8> {
    seq![r.is_initialized]
        + r.subscriber@
        + r.creator@
        + spec_u64_to_le_bytes(r.expires_at as u64)
        + r.nft_mint@
        + r.bump@
}

/// `r` is the record that the first `SubscriptionRecord::LEN` bytes of `s` hold.
pub open spec fn subscription_from(r: SubscriptionRecord, s: Seq<u8>) -> bool {
    &&& s.len() >= 106
    &&& r.is_initialized == s[0]
    &&& r.subscriber@ == s.subrange(1, 33)
    &&& r.creator@ == s.subrange(33, 65)
    &&& r.expires_at == spec_u64_from_le_bytes(s.subrange(65, 73)) as i64
    &&& r.nft_mint@ == s.subrange(73, 105)
    &&& r.bump@ == s.subrange(105, 106)
}

/// Reading the bytes that store a record gives it back, and a buffer of
/// exactly `SubscriptionRecord::LEN` bytes is the storage of the record read from it.
pub proof fn lemma_subscription_bytes_round_trip(r: SubscriptionRecord, s: Seq<u8>)
    ensures
        subscription_bytes(r).len() == SubscriptionRecord::LEN,
        subscription_from(r, subscription_bytes(r)),
        subscription_from(r, s) && s.len() == SubscriptionRecord::LEN ==> subscription_bytes(r) == s,
{
    vstd::bytes::lemma_auto_spec_u64_to_from_le_bytes();
    vstd::bytes::lemma_auto_spec_u32_to_from_le_bytes();
    let b = subscription_bytes(r);
    assert(b.subrange(1, 33) =~= r.subscriber@);
    assert(b.subrange(33, 65) =~= r.creator@);
    assert(b.subrange(65, 73) =~= spec_u64_to_le_bytes(r.expires_at as u64));
    lemma_i64_u64_round_trip(r.expires_at);
    assert(b.subrange(73, 105) =~= r.nft_mint@);
    assert(b.subrange(105, 106) =~= r.bump@);
    if subscription_from(r, s) && s.len() == SubscriptionRecord::LEN {
        lemma_u64_i64_round_trip(spec_u64_from_le_bytes(s.subrange(65, 73)));
        assert(spec_u64_to_le_bytes(r.expires_at as u64) == s.subrange(65, 73));
        assert(b =~= s);
    }
}

impl SubscriptionRecord {
    /// Byte length of a stored record: the sum of its field widths.
    pub const LEN: usize = 106;

    /// Reads the record stored in the head of a buffer of at least `LEN` bytes.
    fn read(bytes: &[u8]) -> (r: SubscriptionRecord)
        requires
            bytes@.len() >= SubscriptionRecord::LEN,
        ensures
            subscription_from(r, bytes@),
    {
        let bump: [u8; 1] = [bytes[105]];
        assert(bump@ =~= bytes@.subrange(105, 106));
        SubscriptionRecord {
            is_initialized: bytes[0],
            subscriber: read_array32(bytes, 1),
            creator: read_array32(bytes, 33),
            expires_at: u64_from_le_bytes(slice_subrange(bytes, 65, 73)) as i64,
            nft_mint: read_array32(bytes, 73),
            bump,
        }
    }

    /// Reads the record at the head of a buffer that will be written back
    /// with `store`; fails with `BufferTooSmall` when the buffer is shorter
    /// than `LEN`.
    pub fn load_mut(bytes: &[u8]) -> (r: Result<SubscriptionRecord, PostError>)
        ensures
            bytes@.len() < SubscriptionRecord::LEN <==> r == Err::<SubscriptionRecord, PostError>(
                PostError::BufferTooSmall,
            ),
            r is Ok <==> bytes@.len() >= SubscriptionRecord::LEN,
            r matches Ok(p) ==> subscription_from(p, bytes@),
    {
        if bytes.len() < Self::LEN {
            return Err(PostError::BufferTooSmall);
        }
        Ok(Self::read(bytes))
    }

    /// Reads the record that a buffer holds; fails with `BufferTooSmall`
    /// unless the buffer is exactly `LEN` bytes long.
    pub fn load(bytes: &[u8]) -> (r: Result<SubscriptionRecord, PostError>)
        ensures
            bytes@.len() != SubscriptionRecord::LEN <==> r == Err::<SubscriptionRecord, PostError>(
                PostError::BufferTooSmall,
            ),
            r is Ok <==> bytes@.len() == SubscriptionRecord::LEN,
            r matches Ok(p) ==> subscription_from(p, bytes@) && subscription_bytes(p) == bytes@,
    {
        if bytes.len() != Self::LEN {
            return Err(PostError::BufferTooSmall);
        }
        let p = Self::read(bytes);
        proof {
            lemma_subscription_bytes_round_trip(p, bytes@);
        }
        Ok(p)
    }

    /// The `LEN` bytes that store this record.
    pub fn to_bytes(&self) -> (r: Vec<u8>)
        ensures
            r@ == subscription_bytes(*self),
            r@.len() == SubscriptionRecord::LEN,
    {
        let mut v: Vec<u8> = Vec::new();
        v.push(self.is_initialized);
        push_all(&mut v, &self.subscriber);
        push_all(&mut v, &self.creator);
        push_all(&mut v, u64_to_le_bytes(self.expires_at as u64).as_slice());
        push_all(&mut v, &self.nft_mint);
        push_all(&mut v, &self.bump);
        proof {
            lemma_subscription_bytes_round_trip(*self, v@);
            assert(v@ =~= subscription_bytes(*self));
        }
        v
    }

    /// Writes this record over the head of a buffer of at least `LEN` bytes,
    /// leaving the bytes after it unchanged.
    pub fn store(&self, bytes: &mut Vec<u8>)
        requires
            old(bytes)@.len() >= SubscriptionRecord::LEN,
        ensures
            final(bytes)@ == subscription_bytes(*self) + old(bytes)@.subrange(
                SubscriptionRecord::LEN as int,
                old(bytes)@.len() as int,
            ),
    {
        let v = self.to_bytes();
        write_head(bytes, &v);
    }
}


impl CreatorProfile {
    /// Writes a new record at the head of `bytes`: initialized, the given fields, no posts or subscribers and an all-zero subscriber mint. Fails with
    /// `BufferTooSmall`, leaving `bytes` as it was, when it is shorter than `LEN`.
    pub fn initialize(
        bytes: &mut Vec<u8>,
        creator: Address,
        username: [u8; 32],
        avatar_hash: [u8; 32],
        subscription_price: u64,
        bump: [u8; 1],
    ) -> (r: Result<(), PostError>)
        ensures
            old(bytes)@.len() < CreatorProfile::LEN <==> r == Err::<(), PostError>(
                PostError::BufferTooSmall,
            ),
            r is Ok <==> old(bytes)@.len() >= Self::LEN,
            r is Err ==> final(bytes)@ == old(bytes)@,
            r is Ok ==> exists|p: CreatorProfile|
                {
                    &&& p.is_initialized == 1
                &&& p.creator == creator
                &&& p.username == username
                &&& p.avatar_hash == avatar_hash
                &&& p.subscription_price == subscription_price
                &&& p.bump == bump
                &&& p.subscriber_mint@ == zeros32()
                &&& p.total_posts == 0
                &&& p.total_subscribers == 0
                    &&& final(bytes)@ == profile_bytes(p) + old(bytes)@.subrange(
                        CreatorProfile::LEN as int,
                        old(bytes)@.len() as int,
                    )
                },
    {
        if bytes.len() < Self::LEN {
            return Err(PostError::BufferTooSmall);
        }
        let r = CreatorProfile {
            is_initialized: 1,
            creator,
            username,
            avatar_hash,
            subscriber_mint: [0u8; 32],
            subscription_price,
            total_posts: 0,
            total_subscribers: 0,
            bump,
        };
        assert(r.subscriber_mint@ =~= zeros32());
        r.store(bytes);
        Ok(())
    }
}

impl CommentState {
    /// Writes a new record at the head of `bytes`: initialized, the given fields, no replies and no likes. Fails with
    /// `BufferTooSmall`, leaving `bytes` as it was, when it is shorter than `LEN`.
    pub fn initialize(
        bytes: &mut Vec<u8>,
        author: Address,
        post: Address,
        parent: Address,
        content_hash: [u8; 32],
        index: u32,
        created_at: i64,
        bump: [u8; 1],
    ) -> (r: Result<(), PostError>)
        ensures
            old(bytes)@.len() < CommentState::LEN <==> r == Err::<(), PostError>(
                PostError::BufferTooSmall,
            ),
            r is Ok <==> old(bytes)@.len() >= Self::LEN,
            r is Err ==> final(bytes)@ == old(bytes)@,
            r is Ok ==> exists|p: CommentState|
                {
                    &&& p.is_initialized == 1
                &&& p.author == author
                &&& p.post == post
                &&& p.parent == parent
                &&& p.content_hash == content_hash
                &&& p.index == index
                &&& p.created_at == created_at
                &&& p.bump == bump
                &&& p.reply_count == 0
                &&& p.likes == 0
                    &&& final(bytes)@ == comment_bytes(p) + old(bytes)@.subrange(
                        CommentState::LEN as int,
                        old(bytes)@.len() as int,
                    )
                },
    {
        if bytes.len() < Self::LEN {
            return Err(PostError::BufferTooSmall);
        }
        let r = CommentState {
            is_initialized: 1,
            author,
            post,
            parent,
            content_hash,
            index,
            reply_count: 0,
            likes: 0,
            created_at,
            bump,
        };

        r.store(bytes);
        Ok(())
    }
}

impl LikerRecord {
    /// Writes a new record at the head of `bytes`: initialized, with the given fields. Fails with
    /// `BufferTooSmall`, leaving `bytes` as it was, when it is shorter than `LEN`.
    pub fn initialize(
        bytes: &mut Vec<u8>,
        user: Address,
        target: Address,
        bump: [u8; 1],
    ) -> (r: Result<(), PostError>)
        ensures
            old(bytes)@.len() < LikerRecord::LEN <==> r == Err::<(), PostError>(
                PostError::BufferTooSmall,
            ),
            r is Ok <==> old(bytes)@.len() >= Self::LEN,
            r is Err ==> final(bytes)@ == old(bytes)@,
            r is Ok ==> exists|p: LikerRecord|
                {
                    &&& p.is_initialized == 1
                &&& p.user == user
                &&& p.target == target
                &&& p.bump == bump
                    &&& final(bytes)@ == like_bytes(p) + old(bytes)@.subrange(
                        LikerRecord::LEN as int,
                        old(bytes)@.len() as int,
                    )
                },
    {
        if bytes.len() < Self::LEN {
            return Err(PostError::BufferTooSmall);
        }
        let r = LikerRecord {
            is_initialized: 1,
            user,
            target,
            bump,
        };

        r.store(bytes);
        Ok(())
    }
}

impl SubscriptionRecord {
    /// Writes a new record at the head of `bytes`: initialized, with the given fields. Fails with
    /// `BufferTooSmall`, leaving `bytes` as it was, when it is shorter than `LEN`.
    pub fn initialize(
        bytes: &mut Vec<u8>,
        subscriber: Address,
        creator: Address,
        expires_at: i64,
        nft_mint: Address,
        bump: [u8; 1],
    ) -> (r: Result<(), PostError>)
        ensures
            old(bytes)@.len() < SubscriptionRecord::LEN <==> r == Err::<(), PostError>(
                PostError::BufferTooSmall,
            ),
            r is Ok <==> old(bytes)@.len() >= Self::LEN,
            r is Err ==> final(bytes)@ == old(bytes)@,
            r is Ok ==> exists|p: SubscriptionRecord|
                {
                    &&& p.is_initialized == 1
                &&& p.subscriber == subscriber
                &&& p.creator == creator
                &&& p.expires_at == expires_at
                &&& p.nft_mint == nft_mint
                &&& p.bump == bump
                    &&& final(bytes)@ == subscription_bytes(p) + old(bytes)@.subrange(
                        SubscriptionRecord::LEN as int,
                        old(bytes)@.len() as int,
                    )
                },
    {
        if bytes.len() < Self::LEN {
            return Err(PostError::BufferTooSmall);
        }
        let r = SubscriptionRecord {
            is_initialized: 1,
            subscriber,
            creator,
            expires_at,
            nft_mint,
            bump,
        };

        r.store(bytes);
        Ok(())
    }
}

} // verus!

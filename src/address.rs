use vstd::bytes::{spec_u32_to_le_bytes, spec_u64_to_le_bytes, u32_to_le_bytes, u64_to_le_bytes};
use vstd::prelude::*;

use crate::state::Address;

verus! {

/// What `Address::try_find_program_address` gives for an ordered seed list and
/// a program id: the first address off the ed25519 curve over the bumps 255
/// down to 1, with its bump, or none.
pub uninterp spec fn program_address_of(seeds: Seq<Seq<u8>>, program_id: Seq<u8>) -> Option<
    (Seq<u8>, u8),
>;

/// The view of a derived address and bump.
pub open spec fn derived_view(r: Option<(Address, u8)>) -> Option<(Seq<u8>, u8)> {
    match r {
        Some(p) => Some((p.0@, p.1)),
        None => None,
    }
}

/// Relies on `pinocchio::Address::try_find_program_address` (solana-address):
/// its result depends on the seeds and the program id alone.
#[verifier::external_body]
fn try_find_program_address(seeds: &Vec<Vec<u8>>, program_id: &Address) -> (r: Option<
    (Address, u8),
>)
    ensures
        derived_view(r) == program_address_of(seeds.deep_view(), program_id@),
{
    let refs: Vec<&[u8]> = seeds.iter().map(|s| s.as_slice()).collect();
    let id = pinocchio::Address::new_from_array(*program_id);
    pinocchio::Address::try_find_program_address(&refs, &id).map(|(a, b)| (a.to_bytes(), b))
}

/// Namespace tag of post addresses: the ASCII bytes of "post".
pub open spec fn post_tag() -> Seq<u8> {
    seq![0x70u8, 0x6fu8, 0x73u8, 0x74u8]
}

/// Seeds of the post that `maker` numbers `seed`: tag, maker, sequence (LE).
pub open spec fn post_seeds(maker: Seq<u8>, seed: u64) -> Seq<Seq<u8>> {
    seq![post_tag(), maker, spec_u64_to_le_bytes(seed)]
}

/// The canonical address and bump of that post under `program_id`.
pub open spec fn post_address(maker: Seq<u8>, seed: u64, program_id: Seq<u8>) -> Option<
    (Seq<u8>, u8),
> {
    program_address_of(post_seeds(maker, seed), program_id)
}

/// Builds the seed list of a post.
pub fn post_seed_list(maker: &Address, seed: u64) -> (r: Vec<Vec<u8>>)
    ensures
        r.deep_view() == post_seeds(maker@, seed),
{
    let tag: Vec<u8> = vec![0x70u8, 0x6fu8, 0x73u8, 0x74u8];
    let m: Vec<u8> = vstd::slice::slice_to_vec(maker.as_slice());
    let s: Vec<u8> = u64_to_le_bytes(seed);
    assert(tag@ =~= post_tag());
    assert(tag.deep_view() =~= tag@);
    assert(m.deep_view() =~= m@);
    assert(s.deep_view() =~= s@);
    let r: Vec<Vec<u8>> = vec![tag, m, s];
    assert(r.deep_view().len() == 3);
    assert(r.deep_view() =~= post_seeds(maker@, seed));
    r
}

/// Derives the address and bump of the post that `maker` numbers `seed`.
pub fn derive_post_address(maker: &Address, seed: u64, program_id: &Address) -> (r: Option<
    (Address, u8),
>)
    ensures
        derived_view(r) == post_address(maker@, seed, program_id@),
{
    let seeds = post_seed_list(maker, seed);
    try_find_program_address(&seeds, program_id)
}

/// Builds a seed list from a namespace tag and the seeds after it.
fn tagged_seeds(tag: Vec<u8>, rest: Vec<Vec<u8>>) -> (r: Vec<Vec<u8>>)
    ensures
        r.deep_view() == seq![tag@].add(rest.deep_view()),
{
    let mut r: Vec<Vec<u8>> = Vec::new();
    assert(tag.deep_view() =~= tag@);
    let ghost head = tag@;
    r.push(tag);
    let mut rest = rest;
    let ghost tail = rest.deep_view();
    r.append(&mut rest);
    assert(r.deep_view() =~= seq![head].add(tail));
    r
}

/// Namespace tag of creator addresses: the ASCII bytes of "creator".
pub open spec fn creator_tag() -> Seq<u8> {
    seq![0x63u8, 0x72u8, 0x65u8, 0x61u8, 0x74u8, 0x6fu8, 0x72u8]
}

/// Seeds of the profile of `creator`.
pub open spec fn creator_seeds(creator: Seq<u8>) -> Seq<Seq<u8>> {
    seq![creator_tag(), creator]
}

/// Derives the address and bump of the profile of `creator`.
pub fn derive_creator_address(
    creator: &Address,
    program_id: &Address,
) -> (r: Option<(Address, u8)>)
    ensures
        derived_view(r) == program_address_of(creator_seeds(creator@), program_id@),
{
    let tag: Vec<u8> = vec![0x63u8, 0x72u8, 0x65u8, 0x61u8, 0x74u8, 0x6fu8, 0x72u8];
    assert(tag@ =~= creator_tag());
    let creator_bytes: Vec<u8> = vstd::slice::slice_to_vec(creator.as_slice());
    assert(creator_bytes.deep_view() =~= creator_bytes@);
    let seeds = tagged_seeds(tag, vec![creator_bytes]);
    assert(seeds.deep_view() =~= creator_seeds(creator@));
    try_find_program_address(&seeds, program_id)
}

/// Namespace tag of comment addresses: the ASCII bytes of "comment".
pub open spec fn comment_tag() -> Seq<u8> {
    seq![0x63u8, 0x6fu8, 0x6du8, 0x6du8, 0x65u8, 0x6eu8, 0x74u8]
}

/// Seeds of the comment number `index` on `post`.
pub open spec fn comment_seeds(post: Seq<u8>, index: u32) -> Seq<Seq<u8>> {
    seq![comment_tag(), post, spec_u32_to_le_bytes(index)]
}

/// Derives the address and bump of the comment number `index` on `post`.
pub fn derive_comment_address(
    post: &Address,
    index: u32,
    program_id: &Address,
) -> (r: Option<(Address, u8)>)
    ensures
        derived_view(r) == program_address_of(comment_seeds(post@, index), program_id@),
{
    let tag: Vec<u8> = vec![0x63u8, 0x6fu8, 0x6du8, 0x6du8, 0x65u8, 0x6eu8, 0x74u8];
    assert(tag@ =~= comment_tag());
    let post_bytes: Vec<u8> = vstd::slice::slice_to_vec(post.as_slice());
    assert(post_bytes.deep_view() =~= post_bytes@);
    let index_bytes: Vec<u8> = u32_to_le_bytes(index);
    assert(index_bytes.deep_view() =~= index_bytes@);
    let seeds = tagged_seeds(tag, vec![post_bytes, index_bytes]);
    assert(seeds.deep_view() =~= comment_seeds(post@, index));
    try_find_program_address(&seeds, program_id)
}

/// Namespace tag of reply addresses: the ASCII bytes of "reply".
pub open spec fn reply_tag() -> Seq<u8> {
    seq![0x72u8, 0x65u8, 0x70u8, 0x6cu8, 0x79u8]
}

/// Seeds of the reply number `index` to the comment `parent`.
pub open spec fn reply_seeds(parent: Seq<u8>, index: u32) -> Seq<Seq<u8>> {
    seq![reply_tag(), parent, spec_u32_to_le_bytes(index)]
}

/// Derives the address and bump of the reply number `index` to the comment `parent`.
pub fn derive_reply_address(
    parent: &Address,
    index: u32,
    program_id: &Address,
) -> (r: Option<(Address, u8)>)
    ensures
        derived_view(r) == program_address_of(reply_seeds(parent@, index), program_id@),
{
    let tag: Vec<u8> = vec![0x72u8, 0x65u8, 0x70u8, 0x6cu8, 0x79u8];
    assert(tag@ =~= reply_tag());
    let parent_bytes: Vec<u8> = vstd::slice::slice_to_vec(parent.as_slice());
    assert(parent_bytes.deep_view() =~= parent_bytes@);
    let index_bytes: Vec<u8> = u32_to_le_bytes(index);
    assert(index_bytes.deep_view() =~= index_bytes@);
    let seeds = tagged_seeds(tag, vec![parent_bytes, index_bytes]);
    assert(seeds.deep_view() =~= reply_seeds(parent@, index));
    try_find_program_address(&seeds, program_id)
}

/// Namespace tag of like addresses: the ASCII bytes of "like".
pub open spec fn like_tag() -> Seq<u8> {
    seq![0x6cu8, 0x69u8, 0x6bu8, 0x65u8]
}

/// Seeds of the like of `target` by `user`.
pub open spec fn like_seeds(target: Seq<u8>, user: Seq<u8>) -> Seq<Seq<u8>> {
    seq![like_tag(), target, user]
}

/// Derives the address and bump of the like of `target` by `user`.
pub fn derive_like_address(
    target: &Address,
    user: &Address,
    program_id: &Address,
) -> (r: Option<(Address, u8)>)
    ensures
        derived_view(r) == program_address_of(like_seeds(target@, user@), program_id@),
{
    let tag: Vec<u8> = vec![0x6cu8, 0x69u8, 0x6bu8, 0x65u8];
    assert(tag@ =~= like_tag());
    let target_bytes: Vec<u8> = vstd::slice::slice_to_vec(target.as_slice());
    assert(target_bytes.deep_view() =~= target_bytes@);
    let user_bytes: Vec<u8> = vstd::slice::slice_to_vec(user.as_slice());
    assert(user_bytes.deep_view() =~= user_bytes@);
    let seeds = tagged_seeds(tag, vec![target_bytes, user_bytes]);
    assert(seeds.deep_view() =~= like_seeds(target@, user@));
    try_find_program_address(&seeds, program_id)
}

/// Namespace tag of subscription addresses: the ASCII bytes of "subscription".
pub open spec fn subscription_tag() -> Seq<u8> {
    seq![0x73u8, 0x75u8, 0x62u8, 0x73u8, 0x63u8, 0x72u8, 0x69u8, 0x70u8, 0x74u8, 0x69u8, 0x6fu8, 0x6eu8]
}

/// Seeds of the subscription of `subscriber` to `creator`.
pub open spec fn subscription_seeds(creator: Seq<u8>, subscriber: Seq<u8>) -> Seq<Seq<u8>> {
    seq![subscription_tag(), creator, subscriber]
}

/// Derives the address and bump of the subscription of `subscriber` to `creator`.
pub fn derive_subscription_address(
    creator: &Address,
    subscriber: &Address,
    program_id: &Address,
) -> (r: Option<(Address, u8)>)
    ensures
        derived_view(r) == program_address_of(subscription_seeds(creator@, subscriber@), program_id@),
{
    let tag: Vec<u8> = vec![0x73u8, 0x75u8, 0x62u8, 0x73u8, 0x63u8, 0x72u8, 0x69u8, 0x70u8, 0x74u8, 0x69u8, 0x6fu8, 0x6eu8];
    assert(tag@ =~= subscription_tag());
    let creator_bytes: Vec<u8> = vstd::slice::slice_to_vec(creator.as_slice());
    assert(creator_bytes.deep_view() =~= creator_bytes@);
    let subscriber_bytes: Vec<u8> = vstd::slice::slice_to_vec(subscriber.as_slice());
    assert(subscriber_bytes.deep_view() =~= subscriber_bytes@);
    let seeds = tagged_seeds(tag, vec![creator_bytes, subscriber_bytes]);
    assert(seeds.deep_view() =~= subscription_seeds(creator@, subscriber@));
    try_find_program_address(&seeds, program_id)
}

/// Derivation is a pure function: identical seed tuples under the same
/// program id always give the same address and bump.
pub proof fn lemma_derivation_deterministic(
    seeds1: Seq<Seq<u8>>,
    program1: Seq<u8>,
    seeds2: Seq<Seq<u8>>,
    program2: Seq<u8>,
)
    requires
        seeds1 == seeds2,
        program1 == program2,
    ensures
        program_address_of(seeds1, program1) == program_address_of(seeds2, program2),
{
}

/// Whether two addresses are equal, byte for byte.
pub fn address_eq(a: &Address, b: &Address) -> (r: bool)
    ensures
        r == (a@ == b@),
{
    let mut i: usize = 0;
    while i < 32
        invariant
            i <= 32,
            forall|j: int| 0 <= j < i ==> a@[j] == b@[j],
        decreases 32 - i,
    {
        if a[i] != b[i] {
            return false;
        }
        i = i + 1;
    }
    assert(a@ =~= b@);
    true
}

} // verus!

use vstd::prelude::*;

use crate::address::{address_eq, derive_post_address, post_address, post_seed_list, post_seeds};
use crate::error::PostError;
use crate::bytes::zeros32;
use crate::instruction::{payload_from, payload_len_ok, payload_seed, CreateVaultInstructionData};
use crate::state::{
    lemma_post_bytes_round_trip, lemma_post_from_head, lemma_post_from_unique, post_bytes, post_from, fresh_post,
    Address, PostState,
};

verus! {

/// An account reference handed in with a request: its address and whether it
/// signed the request.
#[derive(Debug, Clone, Copy, PartialEq, Eq)]
pub struct AccountRef {
    pub address: Address,
    pub is_signer: bool,
}

/// The references of a "create post" request, bound to their roles.
#[derive(Debug, Clone, Copy, PartialEq, Eq)]
pub struct CreateVaultAccounts {
    /// The authorizer, who signs and owns the post.
    pub maker: AccountRef,
    /// Where the post is to be stored.
    pub post_state: AccountRef,
    /// The token that the post refers to.
    pub mint: AccountRef,
    /// The storage allocator.
    pub system_program: AccountRef,
}

/// Number of references that "create post" needs.
pub const CREATE_POST_ACCOUNTS: usize = 4;

/// `a` binds the first four references of `refs` to their roles, in order.
pub open spec fn accounts_from(a: CreateVaultAccounts, refs: Seq<AccountRef>) -> bool {
    &&& refs.len() >= CREATE_POST_ACCOUNTS
    &&& a.maker == refs[0]
    &&& a.post_state == refs[1]
    &&& a.mint == refs[2]
    &&& a.system_program == refs[3]
}

impl CreateVaultAccounts {
    /// Binds references to roles by position. Fails with
    /// `InsufficientReferences` on fewer than four, then with
    /// `MissingAuthorization` when the first one did not sign.
    pub fn try_from_bytes(accounts: &[AccountRef]) -> (r: Result<Self, PostError>)
        ensures
            accounts@.len() < CREATE_POST_ACCOUNTS <==> r == Err::<Self, PostError>(
                PostError::InsufficientReferences,
            ),
            accounts@.len() >= CREATE_POST_ACCOUNTS && !accounts@[0].is_signer <==> r == Err::<
                Self,
                PostError,
            >(PostError::MissingAuthorization),
            r is Ok <==> accounts@.len() >= CREATE_POST_ACCOUNTS && accounts@[0].is_signer,
            r matches Ok(a) ==> accounts_from(a, accounts@) && a.maker.is_signer,
    {
        if accounts.len() < CREATE_POST_ACCOUNTS {
            return Err(PostError::InsufficientReferences);
        }
        let maker = accounts[0];
        let post_state = accounts[1];
        let mint = accounts[2];
        let system_program = accounts[3];
        if !maker.is_signer {
            return Err(PostError::MissingAuthorization);
        }
        Ok(CreateVaultAccounts { maker, post_state, mint, system_program })
    }
}

/// A "create post" request that has been decoded, bound, and checked
/// against the derived address of its post.
pub struct CreateVault {
    pub accounts: CreateVaultAccounts,
    pub args: CreateVaultInstructionData,
    /// The bump under which the post's address was derived.
    pub bump: u8,
}

/// Whether `target` is the derived address of the post that `maker`
/// numbers `seed`.
pub open spec fn target_ok(maker: Seq<u8>, seed: u64, program_id: Seq<u8>, target: Seq<u8>) -> bool {
    post_address(maker, seed, program_id) matches Some(p) && p.0 == target
}

/// `p` is the post that the checked request `c` creates: initialized, every
/// field from the request, counters at zero, no subscriber mint.
pub open spec fn is_new_post(p: PostState, c: CreateVault) -> bool {
    &&& p.is_initialized == 1
    &&& p.maker == c.accounts.maker.address
    &&& p.price == c.args.price
    &&& p.content_hash == c.args.content_hash
    &&& p.seed == c.args.seed
    &&& p.bump@ == seq![c.bump]
    &&& p.mint == c.accounts.mint.address
    &&& p.is_private == c.args.is_private
    &&& p.title == c.args.title
    &&& p.preview_hash == c.args.preview_hash
    &&& p.likes == 0
    &&& p.comments_count == 0
    &&& p.subscriber_mint@ == zeros32()
    &&& p.tips_total == 0
}

/// After a successful creation, the post read back from storage holds every
/// input of the request exactly, zero likes, comments and tips, and an
/// all-zero subscriber mint.
pub proof fn lemma_created_post_reads_back(c: CreateVault, p: PostState, rest: Seq<u8>, q: PostState)
    requires
        is_new_post(p, c),
        post_from(q, post_bytes(p) + rest),
    ensures
        is_new_post(q, c),
{
    lemma_post_bytes_round_trip(p, post_bytes(p));
    lemma_post_from_head(p, post_bytes(p), rest);
    lemma_post_from_unique(p, q, post_bytes(p) + rest);
}

/// Storage that a successful creation wrote reads as an initialized record
/// of full length. So, by the contract of `process`, any later creation on it,
/// whatever its request, fails with `AllocationFailed` and leaves it unchanged.
pub proof fn lemma_created_storage_refuses_creation(c: CreateVault, p: PostState, rest: Seq<u8>)
    requires
        is_new_post(p, c),
    ensures
        (post_bytes(p) + rest).len() >= PostState::LEN,
        (post_bytes(p) + rest)[0] != 0,
{
    lemma_post_bytes_round_trip(p, post_bytes(p));
}

impl CreateVault {
    /// The bump under which the post's address was derived.
    pub fn bump(&self) -> (r: u8)
        ensures
            r == self.bump,
    {
        self.bump
    }

    /// Decodes the payload, binds the references and checks that the target
    /// reference is the address derived from ("post", maker, sequence); the
    /// first failing step gives the error.
    pub fn try_from_parts(data: &[u8], accounts: &[AccountRef], program_id: &Address) -> (r:
        Result<Self, PostError>)
        ensures
            !payload_len_ok(data@) <==> r == Err::<Self, PostError>(PostError::MalformedInput),
            payload_len_ok(data@) && accounts@.len() < CREATE_POST_ACCOUNTS <==> r == Err::<
                Self,
                PostError,
            >(PostError::InsufficientReferences),
            payload_len_ok(data@) && accounts@.len() >= CREATE_POST_ACCOUNTS
                && !accounts@[0].is_signer <==> r == Err::<Self, PostError>(
                PostError::MissingAuthorization,
            ),
            payload_len_ok(data@) && accounts@.len() >= CREATE_POST_ACCOUNTS
                && accounts@[0].is_signer && !target_ok(
                accounts@[0].address@,
                payload_seed(data@),
                program_id@,
                accounts@[1].address@,
            ) <==> r == Err::<Self, PostError>(PostError::AddressMismatch),
            payload_len_ok(data@) && accounts@.len() >= CREATE_POST_ACCOUNTS
                && accounts@[0].is_signer && target_ok(
                accounts@[0].address@,
                payload_seed(data@),
                program_id@,
                accounts@[1].address@,
            ) ==> r is Ok,
            r matches Ok(c) ==> {
                &&& payload_from(c.args, data@)
                &&& accounts_from(c.accounts, accounts@)
                &&& post_address(c.accounts.maker.address@, c.args.seed, program_id@) == Some(
                    (c.accounts.post_state.address@, c.bump),
                )
            },
    {
        let args = match CreateVaultInstructionData::try_from_bytes(data) {
            Ok(d) => d,
            Err(e) => {
                return Err(e);
            },
        };
        let bound = match CreateVaultAccounts::try_from_bytes(accounts) {
            Ok(a) => a,
            Err(e) => {
                return Err(e);
            },
        };
        match derive_post_address(&bound.maker.address, args.seed, program_id) {
            Some((expected, bump)) => {
                if !address_eq(&bound.post_state.address, &expected) {
                    return Err(PostError::AddressMismatch);
                }
                Ok(CreateVault { accounts: bound, args, bump })
            },
            None => Err(PostError::AddressMismatch),
        }
    }

    /// The seeds, bump last, with which the allocator is asked to create the
    /// post's storage.
    pub fn signer_seeds(&self) -> (r: Vec<Vec<u8>>)
        ensures
            r.deep_view() == post_seeds(self.accounts.maker.address@, self.args.seed).push(
                seq![self.bump],
            ),
    {
        let mut seeds = post_seed_list(&self.accounts.maker.address, self.args.seed);
        let b: Vec<u8> = vec![self.bump];
        assert(b.deep_view() =~= seq![self.bump]);
        seeds.push(b);
        assert(seeds.deep_view() =~= post_seeds(self.accounts.maker.address@, self.args.seed).push(
            seq![self.bump],
        ));
        seeds
    }

    /// Writes the new post into the storage that the allocator handed back.
    /// `allocated` tells whether the allocator created that storage. Fails with
    /// `AllocationFailed` when it did not or when the storage already holds an
    /// initialized record, and with `BufferTooSmall` when it is shorter than
    /// `PostState::LEN`; a failure leaves the storage as it was.
    pub fn process(&self, allocated: bool, data: &mut Vec<u8>) -> (r: Result<(), PostError>)
        ensures
            !allocated ==> r == Err::<(), PostError>(PostError::AllocationFailed),
            allocated && old(data)@.len() < PostState::LEN ==> r == Err::<(), PostError>(
                PostError::BufferTooSmall,
            ),
            allocated && old(data)@.len() >= PostState::LEN && old(data)@[0] != 0 ==> r == Err::<
                (),
                PostError,
            >(PostError::AllocationFailed),
            allocated && old(data)@.len() >= PostState::LEN && old(data)@[0] == 0 ==> r is Ok,
            r is Err ==> final(data)@ == old(data)@,
            r is Ok ==> exists|p: PostState|
                is_new_post(p, *self) && final(data)@ == post_bytes(p) + old(data)@.subrange(
                    PostState::LEN as int,
                    old(data)@.len() as int,
                ),
    {
        if !allocated {
            return Err(PostError::AllocationFailed);
        }
        let existing = match PostState::load_mut(data.as_slice()) {
            Ok(p) => p,
            Err(e) => {
                return Err(e);
            },
        };
        if existing.is_initialized != 0 {
            return Err(PostError::AllocationFailed);
        }
        let bump: [u8; 1] = [self.bump];
        assert(bump@ =~= seq![self.bump]);
        let r = PostState::initialize(
            data,
            self.accounts.maker.address,
            self.args.price,
            self.args.content_hash,
            self.args.seed,
            bump,
            self.accounts.mint.address,
            self.args.is_private,
            self.args.title,
            self.args.preview_hash,
        );
        proof {
            if r is Ok {
                let p = choose|p: PostState|
                    fresh_post(
                        p,
                        self.accounts.maker.address,
                        self.args.price,
                        self.args.content_hash,
                        self.args.seed,
                        bump,
                        self.accounts.mint.address,
                        self.args.is_private,
                        self.args.title,
                        self.args.preview_hash,
                    ) && data@ == post_bytes(p) + old(data)@.subrange(
                        PostState::LEN as int,
                        old(data)@.len() as int,
                    );
                assert(is_new_post(p, *self));
            }
        }
        r
    }
}

} // verus!

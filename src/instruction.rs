use vstd::bytes::{spec_u64_from_le_bytes, spec_u64_to_le_bytes, u64_from_le_bytes, u64_to_le_bytes};
use vstd::prelude::*;
use vstd::slice::slice_subrange;

use crate::bytes::{push_all, read_array32};
use crate::error::PostError;

verus! {

/// Operation tag of "create post". Its schema is the one canonical payload:
/// sequence, price, content hash, visibility, title and preview hash.
pub const CREATE_POST_TAG: u8 = 0;

/// Length of a "create post" request, tag included: 1 + 8 + 8 + 32 + 1 + 32 + 32.
pub const CREATE_POST_LEN: usize = 114;

/// The payload of a "create post" request.
#[derive(Debug, Clone, Copy, PartialEq, Eq)]
pub struct CreateVaultInstructionData {
    pub seed: u64,
    pub price: u64,
    pub content_hash: [u8; 32],
    /// 0 for public, 1 for subscribers only.
    pub is_private: u8,
    pub title: [u8; 32],
    pub preview_hash: [u8; 32],
}

/// The request bytes that encode `d`, tag included.
pub open spec fn payload_bytes(d: CreateVaultInstructionData) -> Seq<u8> {
    seq![CREATE_POST_TAG] + spec_u64_to_le_bytes(d.seed) + spec_u64_to_le_bytes(d.price)
        + d.content_hash@ + seq![d.is_private] + d.title@ + d.preview_hash@
}

/// Whether `s` has the exact length of a "create post" request.
pub open spec fn payload_len_ok(s: Seq<u8>) -> bool {
    s.len() == CREATE_POST_LEN
}

/// The sequence number that a request of valid length carries.
pub open spec fn payload_seed(s: Seq<u8>) -> u64 {
    spec_u64_from_le_bytes(s.subrange(1, 9))
}

/// `d` is what the request bytes `s` hold (the tag byte is not read here).
pub open spec fn payload_from(d: CreateVaultInstructionData, s: Seq<u8>) -> bool {
    &&& payload_len_ok(s)
    &&& d.seed == payload_seed(s)
    &&& d.price == spec_u64_from_le_bytes(s.subrange(9, 17))
    &&& d.content_hash@ == s.subrange(17, 49)
    &&& d.is_private == s[49]
    &&& d.title@ == s.subrange(50, 82)
    &&& d.preview_hash@ == s.subrange(82, 114)
}

/// Two arrays with the same bytes are the same array.
proof fn lemma_array_eq(a: [u8; 32], b: [u8; 32])
    requires
        a@ == b@,
    ensures
        a == b,
{
    assert(a =~= b);
}

/// Decoding the encoding of a payload gives that payload back: the encoding
/// has the valid length, and the one payload it holds is `d`.
pub proof fn lemma_payload_round_trip(d: CreateVaultInstructionData, e: CreateVaultInstructionData)
    ensures
        payload_len_ok(payload_bytes(d)),
        payload_from(d, payload_bytes(d)),
        payload_from(e, payload_bytes(d)) ==> e == d,
{
    vstd::bytes::lemma_auto_spec_u64_to_from_le_bytes();
    let b = payload_bytes(d);
    assert(b.subrange(1, 9) =~= spec_u64_to_le_bytes(d.seed));
    assert(b.subrange(9, 17) =~= spec_u64_to_le_bytes(d.price));
    assert(b.subrange(17, 49) =~= d.content_hash@);
    assert(b.subrange(50, 82) =~= d.title@);
    assert(b.subrange(82, 114) =~= d.preview_hash@);
    if payload_from(e, b) {
        lemma_array_eq(e.content_hash, d.content_hash);
        lemma_array_eq(e.title, d.title);
        lemma_array_eq(e.preview_hash, d.preview_hash);
    }
}

impl CreateVaultInstructionData {
    /// Decodes a "create post" request; any length other than
    /// `CREATE_POST_LEN` fails with `MalformedInput`.
    pub fn try_from_bytes(data: &[u8]) -> (r: Result<Self, PostError>)
        ensures
            payload_len_ok(data@) <==> r is Ok,
            r matches Ok(d) ==> payload_from(d, data@),
            r matches Err(e) ==> e == PostError::MalformedInput,
    {
        if data.len() != CREATE_POST_LEN {
            return Err(PostError::MalformedInput);
        }
        Ok(CreateVaultInstructionData {
            seed: u64_from_le_bytes(slice_subrange(data, 1, 9)),
            price: u64_from_le_bytes(slice_subrange(data, 9, 17)),
            content_hash: read_array32(data, 17),
            is_private: data[49],
            title: read_array32(data, 50),
            preview_hash: read_array32(data, 82),
        })
    }

    /// Encodes this payload as a request, tag included.
    pub fn to_bytes(&self) -> (r: Vec<u8>)
        ensures
            r@ == payload_bytes(*self),
    {
        let mut v: Vec<u8> = Vec::new();
        v.push(CREATE_POST_TAG);
        push_all(&mut v, u64_to_le_bytes(self.seed).as_slice());
        push_all(&mut v, u64_to_le_bytes(self.price).as_slice());
        push_all(&mut v, &self.content_hash);
        v.push(self.is_private);
        push_all(&mut v, &self.title);
        push_all(&mut v, &self.preview_hash);
        assert(v@ =~= payload_bytes(*self));
        v
    }
}

/// A decoded request, one variant per operation.
#[derive(Debug, Clone, Copy, PartialEq, Eq)]
pub enum Operation {
    CreatePost(CreateVaultInstructionData),
}

impl Operation {
    /// Reads the operation tag and decodes the payload that its schema fixes.
    /// An empty request, an unknown tag, or a payload of the wrong length is
    /// `MalformedInput`.
    pub fn decode(data: &[u8]) -> (r: Result<Operation, PostError>)
        ensures
            r is Ok <==> data@.len() > 0 && data@[0] == CREATE_POST_TAG && payload_len_ok(data@),
            r matches Err(e) ==> e == PostError::MalformedInput,
            r matches Ok(Operation::CreatePost(d)) ==> payload_from(d, data@),
    {
        if data.len() == 0 {
            return Err(PostError::MalformedInput);
        }
        if data[0] != CREATE_POST_TAG {
            return Err(PostError::MalformedInput);
        }
        match CreateVaultInstructionData::try_from_bytes(data) {
            Ok(d) => Ok(Operation::CreatePost(d)),
            Err(e) => Err(e),
        }
    }
}

} // verus!

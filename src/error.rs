use vstd::prelude::*;

verus! {

/// Every way in which a request can fail; the first failing check ends it.
#[derive(Debug, Clone, Copy, PartialEq, Eq, Structural)]
pub enum PostError {
    /// The request is empty, names no known operation, or its payload
    /// length does not match the operation's schema.
    MalformedInput,
    /// Fewer references were supplied than the operation needs.
    InsufficientReferences,
    /// The authorizing reference does not carry a signature.
    MissingAuthorization,
    /// The target reference differs from the address derived from the seeds.
    AddressMismatch,
    /// A storage buffer is shorter than the record it should hold.
    BufferTooSmall,
    /// Storage at the target address exists already, or the allocator refused.
    AllocationFailed,
}

} // verus!

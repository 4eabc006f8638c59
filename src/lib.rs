//! Record management for a content platform kept in ledger storage: request
//! decoding, reference binding, address derivation and fixed-layout records.

pub mod address;
pub mod bytes;
pub mod create_post;
pub mod error;
pub mod instruction;
pub mod state;

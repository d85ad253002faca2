//! A verified addressing and indexing engine for a small social graph.
//!
//! Identities (profiles), named collections of posts (groups), threaded
//! posts and replies, and a naming layer that maps unique text handles to
//! storage addresses. Records live in an address-indexed store; every
//! address is derived deterministically from a namespace tag and seed
//! bytes, so uniqueness of handles and gapless child indices are enforced
//! by construction rather than by scanned indexes.

pub mod address;
pub mod errors;
pub mod instructions;
pub mod laws;
pub mod state;
pub mod store;

pub use address::{
    bytes_eq, clone_bytes, derive_group_address, derive_lookup_address, derive_post_address,
    derive_profile_address, u32_to_dec, Address, HandleSpace,
};
pub use errors::GenericError;
pub use instructions::{
    lookup_handle, process_change_username, process_create_post, process_create_post_group,
    process_create_profile, process_create_reply, process_update_post, process_update_profile,
    register_handle,
};
pub use state::{
    LookupAccount, Post, PostGroup, Profile, Record, MAX_LEN_GROUP_NAME, MAX_LEN_NAME,
    MAX_LEN_URI, MAX_LEN_USERNAME,
};
pub use store::Store;

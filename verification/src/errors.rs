//! Typed failures. Every operation either applies in full or reports one of
//! these and leaves the store untouched.

use vstd::prelude::*;

verus! {

/// Why an operation was rejected.
#[derive(Clone, Copy, Debug, PartialEq, Eq, Structural)]
pub enum GenericError {
    /// The proven authority does not match the required authority, possibly
    /// after resolving a dependent record's owner.
    Unauthorized,
    /// A referenced record is missing or does not match the expected
    /// relationship (wrong kind, wrong author, occupied creation address).
    InvalidAccount,
    /// A name or handle exceeds its length bound.
    HandleTooLong,
    /// An off-chain URI exceeds its length bound.
    UriTooLong,
    /// A handle contains a byte outside its safe character set.
    InvalidHandle,
    /// The handle is already bound: a lookup record occupies its address.
    HandleTaken,
    /// A child-record counter is exhausted and may not wrap.
    CounterOverflow,
}

} // verus!

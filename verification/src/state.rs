//! The four record kinds of the store, their mathematical views, and the
//! pure validation rules applied before any mutation.

use vstd::prelude::*;
use crate::address::Address;
use crate::errors::GenericError;

verus! {

/// Max allowed byte length for display names.
pub const MAX_LEN_NAME: usize = 128;

/// Max allowed byte length for usernames.
pub const MAX_LEN_USERNAME: usize = 28;

/// Max allowed byte length for off-chain URIs (`metadata_uri`, `image_uri`).
pub const MAX_LEN_URI: usize = 256;

/// Max allowed byte length for a post group's friendly name.
pub const MAX_LEN_GROUP_NAME: usize = 32;

/// A named identity.
pub struct Profile {
    /// Seed bytes chosen by the creator; immutable, they form the address.
    pub random_seed: [u8; 32],
    /// Raw key with blanket authority over the profile.
    pub authority: Address,
    /// Unique handle; mutable only through the rename protocol.
    pub username: Vec<u8>,
    /// Display name.
    pub name: Vec<u8>,
    /// URI of an off-chain image, opaque to the engine.
    pub image_uri: Vec<u8>,
    /// URI of an off-chain metadata file, opaque to the engine.
    pub metadata_uri: Vec<u8>,
}

/// The view of a profile record.
pub struct ProfileV {
    pub random_seed: Seq<u8>,
    pub authority: Seq<u8>,
    pub username: Seq<u8>,
    pub name: Seq<u8>,
    pub image_uri: Seq<u8>,
    pub metadata_uri: Seq<u8>,
}

impl View for Profile {
    type V = ProfileV;

    open spec fn view(&self) -> ProfileV {
        ProfileV {
            random_seed: self.random_seed@,
            authority: self.authority@,
            username: self.username@,
            name: self.name@,
            image_uri: self.image_uri@,
            metadata_uri: self.metadata_uri@,
        }
    }
}

/// A named, ordered collection of root posts owned by one profile.
pub struct PostGroup {
    /// Seed bytes chosen by the creator; immutable, they form the address.
    pub random_seed: [u8; 32],
    /// The owning profile's address, not a raw key, so that a rotation of
    /// the profile's key leaves the group correctly controlled.
    pub authority: Address,
    /// Counter of root posts; each accepted post consumes its current value
    /// as the post's index, then it advances by exactly one.
    pub post_count: u32,
    /// Friendly name, bound to this group by a lookup record.
    pub name: Vec<u8>,
}

/// The view of a post group record.
pub struct PostGroupV {
    pub random_seed: Seq<u8>,
    pub authority: Seq<u8>,
    pub post_count: u32,
    pub name: Seq<u8>,
}

impl View for PostGroup {
    type V = PostGroupV;

    open spec fn view(&self) -> PostGroupV {
        PostGroupV {
            random_seed: self.random_seed@,
            authority: self.authority@,
            post_count: self.post_count,
            name: self.name@,
        }
    }
}

/// A root post or a reply.
pub struct Post {
    /// The owning group's address; for a reply this still names the root
    /// group, while the reply's own address derives from the parent post.
    pub group: Address,
    /// The index this post consumed from its parent's counter.
    pub post_id: u32,
    /// The author profile's address.
    pub author: Address,
    /// The replied-to post, or `None` for a root post.
    pub parent_post: Option<Address>,
    /// Counter of replies; each accepted reply consumes its current value
    /// as the reply's index, then it advances by exactly one.
    pub reply_count: u32,
    /// URI of the off-chain file holding the post content.
    pub metadata_uri: Vec<u8>,
}

/// The view of a post record.
pub struct PostV {
    pub group: Seq<u8>,
    pub post_id: u32,
    pub author: Seq<u8>,
    pub parent_post: Option<Seq<u8>>,
    pub reply_count: u32,
    pub metadata_uri: Seq<u8>,
}

impl View for Post {
    type V = PostV;

    open spec fn view(&self) -> PostV {
        PostV {
            group: self.group@,
            post_id: self.post_id,
            author: self.author@,
            parent_post: match self.parent_post {
                Some(p) => Some(p@),
                None => None,
            },
            reply_count: self.reply_count,
            metadata_uri: self.metadata_uri@,
        }
    }
}

/// A uniqueness binding from a handle to a target address.
pub struct LookupAccount {
    /// The record this handle resolves to.
    pub address: Address,
    /// Who may repoint or destroy this binding: the owning entity's address,
    /// so that control follows the entity rather than a raw key.
    pub authority: Address,
}

/// The view of a lookup record.
pub struct LookupAccountV {
    pub address: Seq<u8>,
    pub authority: Seq<u8>,
}

impl View for LookupAccount {
    type V = LookupAccountV;

    open spec fn view(&self) -> LookupAccountV {
        LookupAccountV { address: self.address@, authority: self.authority@ }
    }
}

/// Any record of the store.
pub enum Record {
    Profile(Profile),
    Group(PostGroup),
    Post(Post),
    Lookup(LookupAccount),
}

/// The view of a record.
pub enum RecordV {
    Profile(ProfileV),
    Group(PostGroupV),
    Post(PostV),
    Lookup(LookupAccountV),
}

impl View for Record {
    type V = RecordV;

    open spec fn view(&self) -> RecordV {
        match self {
            Record::Profile(p) => RecordV::Profile(p@),
            Record::Group(g) => RecordV::Group(g@),
            Record::Post(p) => RecordV::Post(p@),
            Record::Lookup(l) => RecordV::Lookup(l@),
        }
    }
}

/// Whether a byte lies in the safe handle character set `[a-z0-9_-]`.
pub open spec fn is_handle_byte(b: u8) -> bool {
    (97 <= b && b <= 122) || (48 <= b && b <= 57) || b == 95 || b == 45
}

/// Whether every byte of a handle lies in the safe character set.
pub open spec fn valid_handle(s: Seq<u8>) -> bool {
    forall|i: int| 0 <= i < s.len() ==> is_handle_byte(#[trigger] s[i])
}

/// Checks every byte of `s` against the safe handle character set.
pub fn handle_charset_ok(s: &Vec<u8>) -> (r: bool)
    ensures
        r == valid_handle(s@),
{
    let mut i: usize = 0;
    while i < s.len()
        invariant
            i <= s@.len(),
            forall|j: int| 0 <= j < i ==> is_handle_byte(#[trigger] s@[j]),
        decreases s@.len() - i,
    {
        let b = s[i];
        if !((97 <= b && b <= 122) || (48 <= b && b <= 57) || b == 95 || b == 45) {
            return false;
        }
        i += 1;
    }
    true
}

/// The first validation failure of a profile input, if any: length bounds
/// on every string field, then the username character set.
pub open spec fn profile_input_error(input: ProfileV) -> Option<GenericError> {
    if input.name.len() > MAX_LEN_NAME {
        Some(GenericError::HandleTooLong)
    } else if input.username.len() > MAX_LEN_USERNAME {
        Some(GenericError::HandleTooLong)
    } else if input.metadata_uri.len() > MAX_LEN_URI {
        Some(GenericError::UriTooLong)
    } else if input.image_uri.len() > MAX_LEN_URI {
        Some(GenericError::UriTooLong)
    } else if !valid_handle(input.username) {
        Some(GenericError::InvalidHandle)
    } else {
        None
    }
}

/// The validation failure of a username alone, if any: the length bound,
/// then the character set.
pub open spec fn username_error(username: Seq<u8>) -> Option<GenericError> {
    if username.len() > MAX_LEN_USERNAME {
        Some(GenericError::HandleTooLong)
    } else if !valid_handle(username) {
        Some(GenericError::InvalidHandle)
    } else {
        None
    }
}

/// The validation failure of a group name, if any: the length bound, then
/// the character set.
pub open spec fn group_name_error(name: Seq<u8>) -> Option<GenericError> {
    if name.len() > MAX_LEN_GROUP_NAME {
        Some(GenericError::HandleTooLong)
    } else if !valid_handle(name) {
        Some(GenericError::InvalidHandle)
    } else {
        None
    }
}

/// The validation failure of a URI, if any: the length bound.
pub open spec fn uri_error(uri: Seq<u8>) -> Option<GenericError> {
    if uri.len() > MAX_LEN_URI {
        Some(GenericError::UriTooLong)
    } else {
        None
    }
}

impl Profile {
    /// Validates the generic input of a profile create or update.
    pub fn validate_input(input: &Profile) -> (r: Result<(), GenericError>)
        ensures
            match r {
                Ok(()) => profile_input_error(input@) is None,
                Err(e) => profile_input_error(input@) == Some(e),
            },
    {
        if input.name.len() > MAX_LEN_NAME {
            return Err(GenericError::HandleTooLong);
        }
        if input.username.len() > MAX_LEN_USERNAME {
            return Err(GenericError::HandleTooLong);
        }
        if input.metadata_uri.len() > MAX_LEN_URI {
            return Err(GenericError::UriTooLong);
        }
        if input.image_uri.len() > MAX_LEN_URI {
            return Err(GenericError::UriTooLong);
        }
        if !handle_charset_ok(&input.username) {
            return Err(GenericError::InvalidHandle);
        }
        Ok(())
    }

    /// Validates a username on its own, as the rename protocol needs.
    pub fn validate_username(username: &Vec<u8>) -> (r: Result<(), GenericError>)
        ensures
            match r {
                Ok(()) => username_error(username@) is None,
                Err(e) => username_error(username@) == Some(e),
            },
    {
        if username.len() > MAX_LEN_USERNAME {
            return Err(GenericError::HandleTooLong);
        }
        if !handle_charset_ok(username) {
            return Err(GenericError::InvalidHandle);
        }
        Ok(())
    }
}

impl PostGroup {
    /// Validates the friendly name of a post group.
    pub fn validate_name(name: &Vec<u8>) -> (r: Result<(), GenericError>)
        ensures
            match r {
                Ok(()) => group_name_error(name@) is None,
                Err(e) => group_name_error(name@) == Some(e),
            },
    {
        if name.len() > MAX_LEN_GROUP_NAME {
            return Err(GenericError::HandleTooLong);
        }
        if !handle_charset_ok(name) {
            return Err(GenericError::InvalidHandle);
        }
        Ok(())
    }
}

impl Post {
    /// Validates an off-chain URI.
    pub fn validate_uri(uri: &Vec<u8>) -> (r: Result<(), GenericError>)
        ensures
            match r {
                Ok(()) => uri_error(uri@) is None,
                Err(e) => uri_error(uri@) == Some(e),
            },
    {
        if uri.len() > MAX_LEN_URI {
            return Err(GenericError::UriTooLong);
        }
        Ok(())
    }
}

} // verus!

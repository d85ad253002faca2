//! Deterministic address derivation.
//!
//! Every record of the store lives at an address computed from a namespace
//! tag and seed bytes. The derivation is a pure one-way function, so any
//! party can recompute a record's address from the same inputs, and two
//! creations from the same inputs always target the same storage slot.

use vstd::prelude::*;
use anchor_lang::prelude::Pubkey;

verus! {

/// A storage address: the 32 bytes of a derived program address.
///
/// The same representation carries the raw signer keys that authority
/// fields hold, since both are points of the same 32-byte space.
pub type Address = Vec<u8>;

/// The address that the program-address derivation computes from these seed
/// parts, or `None` in the statistically improbable event that no viable
/// derivation exists for them.
pub uninterp spec fn pda_of(parts: Seq<Seq<u8>>) -> Option<Seq<u8>>;

/// The view of an optional address, for contracts over derivation results.
pub open spec fn addr_view(r: Option<Address>) -> Option<Seq<u8>> {
    match r {
        Some(v) => Some(v@),
        None => None,
    }
}

/// Compares two byte strings for equality of their contents.
pub fn bytes_eq(a: &Vec<u8>, b: &Vec<u8>) -> (r: bool)
    ensures
        r == (a@ == b@),
{
    if a.len() != b.len() {
        return false;
    }
    let mut i: usize = 0;
    while i < a.len()
        invariant
            a@.len() == b@.len(),
            i <= a@.len(),
            forall|j: int| 0 <= j < i ==> a@[j] == b@[j],
        decreases a@.len() - i,
    {
        if a[i] != b[i] {
            return false;
        }
        i += 1;
    }
    proof {
        assert(a@ =~= b@);
    }
    true
}

/// Copies a byte string.
pub fn clone_bytes(a: &Vec<u8>) -> (r: Vec<u8>)
    ensures
        r@ == a@,
{
    vstd::slice::slice_to_vec(a.as_slice())
}

/// Relies on `Pubkey::try_find_program_address` of solana-pubkey: the result
/// is a pure function of the seed parts and the program id (fixed here to
/// this program's declared id), and is `None` exactly when no bump seed
/// yields a viable derivation.
#[verifier::external_body]
fn find_address(parts: &Vec<Vec<u8>>) -> (r: Option<Address>)
    ensures
        addr_view(r) == pda_of(parts.deep_view()),
{
    let seeds: Vec<&[u8]> = parts.iter().map(|p| p.as_slice()).collect();
    let program_id = Pubkey::from_str_const("EsNiAoa8UtvZ81e1um5KLmW79xTq8DzyKvX4nZAG9TL6");
    Pubkey::try_find_program_address(&seeds, &program_id)
        .map(|(key, _bump)| key.to_bytes().to_vec())
}

/// Namespace tag for profile records: the bytes of `"profile"`.
pub open spec fn profile_tag() -> Seq<u8> {
    seq![112u8, 114u8, 111u8, 102u8, 105u8, 108u8, 101u8]
}

/// Namespace tag for post group records: the bytes of `"post_group"`.
pub open spec fn group_tag() -> Seq<u8> {
    seq![112u8, 111u8, 115u8, 116u8, 95u8, 103u8, 114u8, 111u8, 117u8, 112u8]
}

/// Namespace tag for post records: the bytes of `"post"`.
pub open spec fn post_tag() -> Seq<u8> {
    seq![112u8, 111u8, 115u8, 116u8]
}

/// Namespace tag for handle lookup records: the bytes of `"lookup"`.
pub open spec fn lookup_tag() -> Seq<u8> {
    seq![108u8, 111u8, 111u8, 107u8, 117u8, 112u8]
}

fn profile_tag_vec() -> (r: Vec<u8>)
    ensures
        r@ == profile_tag(),
{
    let mut v: Vec<u8> = Vec::new();
    v.push(112);
    v.push(114);
    v.push(111);
    v.push(102);
    v.push(105);
    v.push(108);
    v.push(101);
    proof {
        assert(v@ =~= profile_tag());
    }
    v
}

fn group_tag_vec() -> (r: Vec<u8>)
    ensures
        r@ == group_tag(),
{
    let mut v: Vec<u8> = Vec::new();
    v.push(112);
    v.push(111);
    v.push(115);
    v.push(116);
    v.push(95);
    v.push(103);
    v.push(114);
    v.push(111);
    v.push(117);
    v.push(112);
    proof {
        assert(v@ =~= group_tag());
    }
    v
}

fn post_tag_vec() -> (r: Vec<u8>)
    ensures
        r@ == post_tag(),
{
    let mut v: Vec<u8> = Vec::new();
    v.push(112);
    v.push(111);
    v.push(115);
    v.push(116);
    proof {
        assert(v@ =~= post_tag());
    }
    v
}

fn lookup_tag_vec() -> (r: Vec<u8>)
    ensures
        r@ == lookup_tag(),
{
    let mut v: Vec<u8> = Vec::new();
    v.push(108);
    v.push(111);
    v.push(111);
    v.push(107);
    v.push(117);
    v.push(112);
    proof {
        assert(v@ =~= lookup_tag());
    }
    v
}

/// The decimal digits of `n`, most significant first, as ASCII bytes.
pub open spec fn dec_digits(n: nat) -> Seq<u8>
    decreases n,
{
    if n < 10 {
        seq![(48 + n) as u8]
    } else {
        dec_digits(n / 10).push((48 + n % 10) as u8)
    }
}

/// Renders `n` in decimal, the same encoding that child-record seeds use.
pub fn u32_to_dec(n: u32) -> (r: Vec<u8>)
    ensures
        r@ == dec_digits(n as nat),
    decreases n,
{
    if n < 10 {
        let mut v: Vec<u8> = Vec::new();
        v.push(48 + n as u8);
        proof {
            assert(v@ =~= dec_digits(n as nat));
        }
        v
    } else {
        let mut v = u32_to_dec(n / 10);
        v.push(48 + (n % 10) as u8);
        proof {
            assert(v@ =~= dec_digits(n as nat));
        }
        v
    }
}

/// Seed parts for a profile: the profile tag and the creator's seed bytes.
pub open spec fn profile_seeds(seed: Seq<u8>) -> Seq<Seq<u8>> {
    seq![profile_tag(), seed]
}

/// Seed parts for a post group: the group tag and the creator's seed bytes.
pub open spec fn group_seeds(seed: Seq<u8>) -> Seq<Seq<u8>> {
    seq![group_tag(), seed]
}

/// Seed parts for a post: the post tag, the parent's address (the owning
/// group for a root post, the replied-to post for a reply) and the child
/// index in decimal.
pub open spec fn post_seeds(parent: Seq<u8>, index: nat) -> Seq<Seq<u8>> {
    seq![post_tag(), parent, dec_digits(index)]
}

/// Seed parts for a handle lookup record: the lookup tag, the tag of the
/// namespace the handle lives in, and the handle bytes.
pub open spec fn lookup_seeds(owner_tag: Seq<u8>, handle: Seq<u8>) -> Seq<Seq<u8>> {
    seq![lookup_tag(), owner_tag, handle]
}

/// The address of the profile with these seed bytes.
pub open spec fn profile_address(seed: Seq<u8>) -> Option<Seq<u8>> {
    pda_of(profile_seeds(seed))
}

/// The address of the post group with these seed bytes.
pub open spec fn group_address(seed: Seq<u8>) -> Option<Seq<u8>> {
    pda_of(group_seeds(seed))
}

/// The address of the child post of `parent` with this index.
pub open spec fn post_address(parent: Seq<u8>, index: nat) -> Option<Seq<u8>> {
    pda_of(post_seeds(parent, index))
}

/// The address of the lookup record binding `handle` in the namespace
/// tagged `owner_tag`.
pub open spec fn lookup_address(owner_tag: Seq<u8>, handle: Seq<u8>) -> Option<Seq<u8>> {
    pda_of(lookup_seeds(owner_tag, handle))
}

/// Derives the address of the profile with seed bytes `seed`.
pub fn derive_profile_address(seed: &[u8; 32]) -> (r: Option<Address>)
    ensures
        addr_view(r) == profile_address(seed@),
{
    let mut parts: Vec<Vec<u8>> = Vec::new();
    parts.push(profile_tag_vec());
    parts.push(vstd::slice::slice_to_vec(seed.as_slice()));
    proof {
        assert(parts.deep_view() =~~= profile_seeds(seed@));
    }
    find_address(&parts)
}

/// Derives the address of the post group with seed bytes `seed`.
pub fn derive_group_address(seed: &[u8; 32]) -> (r: Option<Address>)
    ensures
        addr_view(r) == group_address(seed@),
{
    let mut parts: Vec<Vec<u8>> = Vec::new();
    parts.push(group_tag_vec());
    parts.push(vstd::slice::slice_to_vec(seed.as_slice()));
    proof {
        assert(parts.deep_view() =~~= group_seeds(seed@));
    }
    find_address(&parts)
}

/// Derives the address of the child post of `parent` with index `index`.
/// Anyone who knows the parent and the index can recompute this address,
/// so child posts need no stored lookup table.
pub fn derive_post_address(parent: &Address, index: u32) -> (r: Option<Address>)
    ensures
        addr_view(r) == post_address(parent@, index as nat),
{
    let mut parts: Vec<Vec<u8>> = Vec::new();
    parts.push(post_tag_vec());
    parts.push(vstd::slice::slice_to_vec(parent.as_slice()));
    parts.push(u32_to_dec(index));
    proof {
        assert(parts.deep_view() =~~= post_seeds(parent@, index as nat));
    }
    find_address(&parts)
}

/// The namespace a handle lives in: profile usernames or group names.
#[derive(Clone, Copy, PartialEq, Eq, Structural)]
pub enum HandleSpace {
    Profile,
    Group,
}

/// The tag of the namespace a handle lives in.
pub open spec fn handle_space_tag(ns: HandleSpace) -> Seq<u8> {
    match ns {
        HandleSpace::Profile => profile_tag(),
        HandleSpace::Group => group_tag(),
    }
}

/// Derives the address of the lookup record binding `handle` in `ns`.
pub fn derive_lookup_address(ns: HandleSpace, handle: &Vec<u8>) -> (r: Option<Address>)
    ensures
        addr_view(r) == lookup_address(handle_space_tag(ns), handle@),
{
    let mut parts: Vec<Vec<u8>> = Vec::new();
    parts.push(lookup_tag_vec());
    match ns {
        HandleSpace::Profile => parts.push(profile_tag_vec()),
        HandleSpace::Group => parts.push(group_tag_vec()),
    }
    parts.push(vstd::slice::slice_to_vec(handle.as_slice()));
    proof {
        assert(parts.deep_view() =~~= lookup_seeds(handle_space_tag(ns), handle@));
    }
    find_address(&parts)
}

} // verus!

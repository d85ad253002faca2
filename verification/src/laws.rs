//! System-level laws, each proved from the operations' transition functions.

use vstd::prelude::*;
use crate::address::{lookup_address, post_address, profile_address, profile_tag};
use crate::errors::GenericError;
use crate::instructions::{
    spec_change_username, spec_create_post, spec_create_profile, spec_create_reply, spec_lookup,
    spec_register, spec_update_post, spec_update_profile,
};
use crate::state::{profile_input_error, ProfileV, RecordV};

verus! {

/// Law: the address a successful profile creation returns is exactly the
/// derivation of the profile's seed, so any party can recompute it off-line
/// from the seed alone, and the record is found there.
pub proof fn lemma_profile_address_recomputable(
    m: Map<Seq<u8>, RecordV>,
    input: ProfileV,
    authority: Seq<u8>,
)
    requires
        spec_create_profile(m, input, authority).0 is Ok,
    ensures
        ({
            let r = spec_create_profile(m, input, authority).0;
            let m1 = spec_create_profile(m, input, authority).1;
            profile_address(input.random_seed) == Some(r->Ok_0) && m1.contains_key(r->Ok_0)
                && m1[r->Ok_0] is Profile
        }),
{
}

/// Law: after a successful profile creation, the new username resolves to
/// the new profile's address. The hypothesis that the two derived addresses
/// differ excludes only the cryptographically negligible case that the
/// derivation collides two distinct namespaces.
pub proof fn lemma_created_username_resolves(
    m: Map<Seq<u8>, RecordV>,
    input: ProfileV,
    authority: Seq<u8>,
)
    requires
        spec_create_profile(m, input, authority).0 is Ok,
        lookup_address(profile_tag(), input.username) != profile_address(input.random_seed),
    ensures
        ({
            let r = spec_create_profile(m, input, authority).0;
            let m1 = spec_create_profile(m, input, authority).1;
            spec_lookup(m1, profile_tag(), input.username) == Some(r->Ok_0)
        }),
{
}

/// Law: registering the same handle in the same namespace twice fails the
/// second time with `HandleTaken` and leaves the store unchanged, whatever
/// target and authority the second attempt names.
pub proof fn lemma_register_twice(
    m: Map<Seq<u8>, RecordV>,
    owner_tag: Seq<u8>,
    handle: Seq<u8>,
    target1: Seq<u8>,
    authority1: Seq<u8>,
    target2: Seq<u8>,
    authority2: Seq<u8>,
)
    requires
        spec_register(m, owner_tag, handle, target1, authority1).0 is Ok,
    ensures
        ({
            let m1 = spec_register(m, owner_tag, handle, target1, authority1).1;
            spec_register(m1, owner_tag, handle, target2, authority2).0 == Err::<
                Seq<u8>,
                GenericError,
            >(GenericError::HandleTaken) && spec_register(
                m1,
                owner_tag,
                handle,
                target2,
                authority2,
            ).1 == m1
        }),
{
}

/// Law: a second profile creation with an already-taken username is
/// rejected with `HandleTaken` and changes nothing, whatever its seed,
/// provided its input is otherwise accepted (valid fields, a derivable
/// seed address, and that address still free).
pub proof fn lemma_username_taken(
    m: Map<Seq<u8>, RecordV>,
    input1: ProfileV,
    authority1: Seq<u8>,
    input2: ProfileV,
    authority2: Seq<u8>,
)
    requires
        spec_create_profile(m, input1, authority1).0 is Ok,
        input2.username == input1.username,
        profile_input_error(input2) is None,
        profile_address(input2.random_seed) is Some,
        !spec_create_profile(m, input1, authority1).1.contains_key(
            profile_address(input2.random_seed)->0,
        ),
    ensures
        ({
            let m1 = spec_create_profile(m, input1, authority1).1;
            spec_create_profile(m1, input2, authority2).0 == Err::<Seq<u8>, GenericError>(
                GenericError::HandleTaken,
            ) && spec_create_profile(m1, input2, authority2).1 == m1
        }),
{
}

/// Law: after a successful rename, the old handle no longer resolves, the
/// new handle resolves to the same profile, the stored handle reads the new
/// name with every other profile field unchanged, and the store's address
/// set swaps exactly one binding for the other — the net storage delta of a
/// rename is zero.
pub proof fn lemma_rename(
    m: Map<Seq<u8>, RecordV>,
    profile_addr: Seq<u8>,
    new_username: Seq<u8>,
    proven: Seq<u8>,
)
    requires
        spec_change_username(m, profile_addr, new_username, proven).0 is Ok,
    ensures
        ({
            let m1 = spec_change_username(m, profile_addr, new_username, proven).1;
            let p = m[profile_addr]->Profile_0;
            let p1 = m1[profile_addr]->Profile_0;
            &&& spec_lookup(m1, profile_tag(), p.username) is None
            &&& spec_lookup(m1, profile_tag(), new_username) == Some(profile_addr)
            &&& m1.contains_key(profile_addr)
            &&& m1[profile_addr] is Profile
            &&& p1.username == new_username
            &&& p1.authority == p.authority
            &&& p1.random_seed == p.random_seed
            &&& p1.name == p.name
            &&& p1.image_uri == p.image_uri
            &&& p1.metadata_uri == p.metadata_uri
            &&& m1.dom() == m.dom().insert(
                lookup_address(profile_tag(), new_username)->0,
            ).remove(lookup_address(profile_tag(), p.username)->0)
        }),
{
    let m1 = spec_change_username(m, profile_addr, new_username, proven).1;
    let p = m[profile_addr]->Profile_0;
    let ola = lookup_address(profile_tag(), p.username)->0;
    let nla = lookup_address(profile_tag(), new_username)->0;
    assert(m.contains_key(ola) && m[ola] is Lookup);
    assert(!m.contains_key(nla));
    assert(m.contains_key(profile_addr) && m[profile_addr] is Profile);
    assert(profile_addr != ola);
    assert(profile_addr != nla);
    assert(ola != nla);
    assert(m1.dom() =~= m.dom().insert(nla).remove(ola));
}

/// Law: an accepted root post consumes the group's current count as its
/// index — read first, then advanced by exactly one — and lives at the
/// address derived from the group and that index, recomputable by anyone.
pub proof fn lemma_sequencer_read_then_increment(
    m: Map<Seq<u8>, RecordV>,
    group_addr: Seq<u8>,
    author_addr: Seq<u8>,
    metadata_uri: Seq<u8>,
    proven: Seq<u8>,
)
    requires
        spec_create_post(m, group_addr, author_addr, metadata_uri, proven).0 is Ok,
    ensures
        ({
            let r = spec_create_post(m, group_addr, author_addr, metadata_uri, proven).0->Ok_0;
            let m1 = spec_create_post(m, group_addr, author_addr, metadata_uri, proven).1;
            let k = m[group_addr]->Group_0.post_count;
            &&& r.1 == k
            &&& Some(r.0) == post_address(group_addr, k as nat)
            &&& m1[group_addr] is Group
            &&& m1[group_addr]->Group_0.post_count == k + 1
            &&& m1.contains_key(r.0)
            &&& m1[r.0] is Post
            &&& m1[r.0]->Post_0.post_id == k
        }),
{
    let k = m[group_addr]->Group_0.post_count;
    let pa = post_address(group_addr, k as nat)->0;
    assert(!m.contains_key(pa));
    assert(m.contains_key(group_addr));
    assert(pa != group_addr);
}

/// Law: `UpdateProfile` with a proven authority that does not match the
/// profile's recorded authority is rejected with `Unauthorized` and leaves
/// the store unchanged.
pub proof fn lemma_update_profile_unauthorized(
    m: Map<Seq<u8>, RecordV>,
    profile_addr: Seq<u8>,
    input: ProfileV,
    proven: Seq<u8>,
)
    requires
        m.contains_key(profile_addr),
        m[profile_addr] is Profile,
        m[profile_addr]->Profile_0.authority != proven,
    ensures
        spec_update_profile(m, profile_addr, input, proven).0 == Err::<(), GenericError>(
            GenericError::Unauthorized,
        ),
        spec_update_profile(m, profile_addr, input, proven).1 == m,
{
}

/// Law: `UpdatePost` with a proven authority that does not match the live
/// authority of the post's authoring profile — resolved one hop through
/// the author's address — is rejected with `Unauthorized` and leaves the
/// store unchanged.
pub proof fn lemma_update_post_unauthorized(
    m: Map<Seq<u8>, RecordV>,
    post_addr: Seq<u8>,
    author_addr: Seq<u8>,
    metadata_uri: Seq<u8>,
    proven: Seq<u8>,
)
    requires
        m.contains_key(post_addr),
        m[post_addr] is Post,
        m[post_addr]->Post_0.author == author_addr,
        m.contains_key(author_addr),
        m[author_addr] is Profile,
        m[author_addr]->Profile_0.authority != proven,
    ensures
        spec_update_post(m, post_addr, author_addr, metadata_uri, proven).0 == Err::<
            (),
            GenericError,
        >(GenericError::Unauthorized),
        spec_update_post(m, post_addr, author_addr, metadata_uri, proven).1 == m,
{
}

/// The store after a run of root-post creations in one group, in order,
/// stopping at the first rejection.
pub open spec fn spec_post_batch(
    m: Map<Seq<u8>, RecordV>,
    group_addr: Seq<u8>,
    author_addr: Seq<u8>,
    uris: Seq<Seq<u8>>,
    proven: Seq<u8>,
) -> (Result<(), GenericError>, Map<Seq<u8>, RecordV>)
    decreases uris.len(),
{
    if uris.len() == 0 {
        (Ok(()), m)
    } else {
        let first = spec_create_post(m, group_addr, author_addr, uris[0], proven);
        match first.0 {
            Err(e) => (Err(e), m),
            Ok(_) => spec_post_batch(first.1, group_addr, author_addr, uris.drop_first(), proven),
        }
    }
}

/// Law: a run of N accepted sequential root posts in one group advances
/// the group's count from `count` to `count+N` and touches no other
/// pre-existing record of the store.
pub proof fn lemma_post_batch_count(
    m: Map<Seq<u8>, RecordV>,
    group_addr: Seq<u8>,
    author_addr: Seq<u8>,
    uris: Seq<Seq<u8>>,
    proven: Seq<u8>,
)
    requires
        spec_post_batch(m, group_addr, author_addr, uris, proven).0 is Ok,
        m.contains_key(group_addr),
        m[group_addr] is Group,
    ensures
        ({
            let m1 = spec_post_batch(m, group_addr, author_addr, uris, proven).1;
            let k = m[group_addr]->Group_0.post_count as int;
            &&& m1.contains_key(group_addr)
            &&& m1[group_addr] is Group
            &&& m1[group_addr]->Group_0.post_count == k + uris.len()
            &&& forall|x: Seq<u8>|
                #![trigger m.dom().contains(x)]
                m.dom().contains(x) && x != group_addr ==> m1.dom().contains(x) && m1[x] == m[x]
        }),
    decreases uris.len(),
{
    let m1 = spec_post_batch(m, group_addr, author_addr, uris, proven).1;
    let k = m[group_addr]->Group_0.post_count as int;
    if uris.len() > 0 {
        let first = spec_create_post(m, group_addr, author_addr, uris[0], proven);
        let ma = first.1;
        let pa0 = post_address(group_addr, k as nat)->0;
        assert(!m.contains_key(pa0));
        assert(pa0 != group_addr);
        lemma_post_batch_count(ma, group_addr, author_addr, uris.drop_first(), proven);
        assert forall|x: Seq<u8>|
            #![trigger m.dom().contains(x)]
            m.dom().contains(x) && x != group_addr implies m1.dom().contains(x) && m1[x] == m[x] by {
            assert(x != pa0);
            assert(ma.dom().contains(x) && ma[x] == m[x]);
        }
    }
}

/// Law: in a run of N accepted sequential root posts in one group, the
/// post created `i`-th — for every `i` below N — takes exactly the index
/// `count+i` with no gap and no repeat (`0, 1, …, N-1` on a fresh group),
/// lives at the address derived from the group and that index, names the
/// group, has no parent, and carries the `i`-th URI of the run.
pub proof fn lemma_gapless_post_indices(
    m: Map<Seq<u8>, RecordV>,
    group_addr: Seq<u8>,
    author_addr: Seq<u8>,
    uris: Seq<Seq<u8>>,
    proven: Seq<u8>,
    i: int,
)
    requires
        spec_post_batch(m, group_addr, author_addr, uris, proven).0 is Ok,
        m.contains_key(group_addr),
        m[group_addr] is Group,
        0 <= i < uris.len(),
    ensures
        ({
            let m1 = spec_post_batch(m, group_addr, author_addr, uris, proven).1;
            let k = m[group_addr]->Group_0.post_count as int;
            let pa = post_address(group_addr, (k + i) as nat);
            &&& pa is Some
            &&& m1.contains_key(pa->0)
            &&& m1[pa->0] is Post
            &&& m1[pa->0]->Post_0.post_id == k + i
            &&& m1[pa->0]->Post_0.group == group_addr
            &&& m1[pa->0]->Post_0.parent_post is None
            &&& m1[pa->0]->Post_0.metadata_uri == uris[i]
        }),
    decreases uris.len(),
{
    let m1 = spec_post_batch(m, group_addr, author_addr, uris, proven).1;
    let k = m[group_addr]->Group_0.post_count as int;
    let first = spec_create_post(m, group_addr, author_addr, uris[0], proven);
    let ma = first.1;
    let pa0 = post_address(group_addr, k as nat)->0;
    assert(!m.contains_key(pa0));
    assert(pa0 != group_addr);
    if i == 0 {
        lemma_post_batch_count(ma, group_addr, author_addr, uris.drop_first(), proven);
        assert(ma.dom().contains(pa0));
        assert(m1.dom().contains(pa0) && m1[pa0] == ma[pa0]);
    } else {
        lemma_gapless_post_indices(ma, group_addr, author_addr, uris.drop_first(), proven, i - 1);
        assert(uris.drop_first()[i - 1] == uris[i]);
        assert(ma[group_addr]->Group_0.post_count == k + 1);
    }
}

/// The store after a run of reply creations under one parent post, in
/// order, stopping at the first rejection.
pub open spec fn spec_reply_batch(
    m: Map<Seq<u8>, RecordV>,
    parent_addr: Seq<u8>,
    author_addr: Seq<u8>,
    uris: Seq<Seq<u8>>,
    proven: Seq<u8>,
) -> (Result<(), GenericError>, Map<Seq<u8>, RecordV>)
    decreases uris.len(),
{
    if uris.len() == 0 {
        (Ok(()), m)
    } else {
        let first = spec_create_reply(m, parent_addr, author_addr, uris[0], proven);
        match first.0 {
            Err(e) => (Err(e), m),
            Ok(_) => spec_reply_batch(first.1, parent_addr, author_addr, uris.drop_first(), proven),
        }
    }
}

/// Law: a run of N accepted sequential replies under one parent post
/// advances the parent's reply count from `count` to `count+N` and touches
/// no other pre-existing record of the store.
pub proof fn lemma_reply_batch_count(
    m: Map<Seq<u8>, RecordV>,
    parent_addr: Seq<u8>,
    author_addr: Seq<u8>,
    uris: Seq<Seq<u8>>,
    proven: Seq<u8>,
)
    requires
        spec_reply_batch(m, parent_addr, author_addr, uris, proven).0 is Ok,
        m.contains_key(parent_addr),
        m[parent_addr] is Post,
    ensures
        ({
            let m1 = spec_reply_batch(m, parent_addr, author_addr, uris, proven).1;
            let k = m[parent_addr]->Post_0.reply_count as int;
            &&& m1.contains_key(parent_addr)
            &&& m1[parent_addr] is Post
            &&& m1[parent_addr]->Post_0.reply_count == k + uris.len()
            &&& forall|x: Seq<u8>|
                #![trigger m.dom().contains(x)]
                m.dom().contains(x) && x != parent_addr ==> m1.dom().contains(x) && m1[x] == m[x]
        }),
    decreases uris.len(),
{
    let m1 = spec_reply_batch(m, parent_addr, author_addr, uris, proven).1;
    let k = m[parent_addr]->Post_0.reply_count as int;
    if uris.len() > 0 {
        let first = spec_create_reply(m, parent_addr, author_addr, uris[0], proven);
        let ma = first.1;
        let pa0 = post_address(parent_addr, k as nat)->0;
        assert(!m.contains_key(pa0));
        assert(pa0 != parent_addr);
        lemma_reply_batch_count(ma, parent_addr, author_addr, uris.drop_first(), proven);
        assert forall|x: Seq<u8>|
            #![trigger m.dom().contains(x)]
            m.dom().contains(x) && x != parent_addr implies m1.dom().contains(x) && m1[x] == m[x] by {
            assert(x != pa0);
            assert(ma.dom().contains(x) && ma[x] == m[x]);
        }
    }
}

/// Law: in a run of N accepted sequential replies under one parent post,
/// the reply created `i`-th — for every `i` below N — takes exactly the
/// index `count+i` with no gap and no repeat (`0, 1, …, N-1` under a fresh
/// post), lives at the address derived from the parent and that index,
/// names the parent, and carries the `i`-th URI of the run.
pub proof fn lemma_gapless_reply_indices(
    m: Map<Seq<u8>, RecordV>,
    parent_addr: Seq<u8>,
    author_addr: Seq<u8>,
    uris: Seq<Seq<u8>>,
    proven: Seq<u8>,
    i: int,
)
    requires
        spec_reply_batch(m, parent_addr, author_addr, uris, proven).0 is Ok,
        m.contains_key(parent_addr),
        m[parent_addr] is Post,
        0 <= i < uris.len(),
    ensures
        ({
            let m1 = spec_reply_batch(m, parent_addr, author_addr, uris, proven).1;
            let k = m[parent_addr]->Post_0.reply_count as int;
            let pa = post_address(parent_addr, (k + i) as nat);
            &&& pa is Some
            &&& m1.contains_key(pa->0)
            &&& m1[pa->0] is Post
            &&& m1[pa->0]->Post_0.post_id == k + i
            &&& m1[pa->0]->Post_0.parent_post == Some(parent_addr)
            &&& m1[pa->0]->Post_0.metadata_uri == uris[i]
        }),
    decreases uris.len(),
{
    let m1 = spec_reply_batch(m, parent_addr, author_addr, uris, proven).1;
    let k = m[parent_addr]->Post_0.reply_count as int;
    let first = spec_create_reply(m, parent_addr, author_addr, uris[0], proven);
    let ma = first.1;
    let pa0 = post_address(parent_addr, k as nat)->0;
    assert(!m.contains_key(pa0));
    assert(pa0 != parent_addr);
    if i == 0 {
        lemma_reply_batch_count(ma, parent_addr, author_addr, uris.drop_first(), proven);
        assert(ma.dom().contains(pa0));
        assert(m1.dom().contains(pa0) && m1[pa0] == ma[pa0]);
    } else {
        lemma_gapless_reply_indices(ma, parent_addr, author_addr, uris.drop_first(), proven, i - 1);
        assert(uris.drop_first()[i - 1] == uris[i]);
        assert(ma[parent_addr]->Post_0.reply_count == k + 1);
    }
}

/// Law: an accepted reply consumes the parent post's current reply count as
/// its index, advances that counter by exactly one, and lives at the
/// address derived from the parent post and that index.
pub proof fn lemma_reply_read_then_increment(
    m: Map<Seq<u8>, RecordV>,
    parent_addr: Seq<u8>,
    author_addr: Seq<u8>,
    metadata_uri: Seq<u8>,
    proven: Seq<u8>,
)
    requires
        spec_create_reply(m, parent_addr, author_addr, metadata_uri, proven).0 is Ok,
    ensures
        ({
            let r = spec_create_reply(m, parent_addr, author_addr, metadata_uri, proven).0->Ok_0;
            let m1 = spec_create_reply(m, parent_addr, author_addr, metadata_uri, proven).1;
            let k = m[parent_addr]->Post_0.reply_count;
            &&& r.1 == k
            &&& Some(r.0) == post_address(parent_addr, k as nat)
            &&& m1[parent_addr] is Post
            &&& m1[parent_addr]->Post_0.reply_count == k + 1
            &&& m1.contains_key(r.0)
            &&& m1[r.0] is Post
            &&& m1[r.0]->Post_0.post_id == k
            &&& m1[r.0]->Post_0.parent_post == Some(parent_addr)
        }),
{
    let k = m[parent_addr]->Post_0.reply_count;
    let pa = post_address(parent_addr, k as nat)->0;
    assert(!m.contains_key(pa));
    assert(m.contains_key(parent_addr));
    assert(pa != parent_addr);
}

} // verus!

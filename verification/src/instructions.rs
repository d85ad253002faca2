//! The mutating operations of the engine.
//!
//! Each operation is specified by a transition function over the store's
//! map view: the pair it returns is the operation's result and the store
//! after it. Every rejection leaves the store exactly as it was, so no
//! partial effect is ever observable; each executable operation's contract
//! ties its result and the final store to the transition of its inputs.

use vstd::prelude::*;
use crate::address::{
    addr_view, Address, bytes_eq, clone_bytes, derive_group_address, derive_lookup_address,
    derive_post_address, derive_profile_address, group_address, group_tag, handle_space_tag,
    lookup_address, post_address, profile_address, profile_tag, HandleSpace,
};
use crate::errors::GenericError;
use crate::state::{
    group_name_error, profile_input_error, uri_error, username_error, LookupAccount,
    LookupAccountV, Post, PostGroup, PostGroupV, PostV, Profile, ProfileV, Record, RecordV,
};
use crate::store::Store;

verus! {

/// The view of a result carrying a new record's address.
pub open spec fn created_view(r: Result<Address, GenericError>) -> Result<Seq<u8>, GenericError> {
    match r {
        Ok(a) => Ok(a@),
        Err(e) => Err(e),
    }
}

/// The view of a result carrying a new child record's address and index.
pub open spec fn indexed_view(r: Result<(Address, u32), GenericError>) -> Result<
    (Seq<u8>, u32),
    GenericError,
> {
    match r {
        Ok(p) => Ok((p.0@, p.1)),
        Err(e) => Err(e),
    }
}

/// What registering a handle does to the store: it targets the lookup
/// record's derived address, fails with `HandleTaken` exactly when that
/// address is occupied, and otherwise creates the binding there. Uniqueness
/// is enforced by construction: a second registration of the same handle
/// derives the same address and finds it occupied.
pub open spec fn spec_register(
    m: Map<Seq<u8>, RecordV>,
    owner_tag: Seq<u8>,
    handle: Seq<u8>,
    target: Seq<u8>,
    authority: Seq<u8>,
) -> (Result<Seq<u8>, GenericError>, Map<Seq<u8>, RecordV>) {
    match lookup_address(owner_tag, handle) {
        None => (Err(GenericError::InvalidAccount), m),
        Some(la) => {
            if m.contains_key(la) {
                (Err(GenericError::HandleTaken), m)
            } else {
                let lookup = LookupAccountV { address: target, authority: authority };
                (Ok(la), m.insert(la, RecordV::Lookup(lookup)))
            }
        },
    }
}

/// Registers a handle: creates the lookup record binding `handle` (in the
/// namespace `ns`) to `target`, controlled by `authority`. Fails with
/// `HandleTaken` if the handle's derived address is already occupied.
/// Returns the lookup record's address.
pub fn register_handle(
    store: &mut Store,
    ns: HandleSpace,
    handle: &Vec<u8>,
    target: &Address,
    authority: &Address,
) -> (r: Result<Address, GenericError>)
    requires
        old(store).wf(),
    ensures
        final(store).wf(),
        ({
            let s = spec_register(old(store)@, handle_space_tag(ns), handle@, target@, authority@);
            created_view(r) == s.0 && final(store)@ == s.1
        }),
{
    let la = match derive_lookup_address(ns, handle) {
        Some(a) => a,
        None => return Err(GenericError::InvalidAccount),
    };
    if store.contains(&la) {
        return Err(GenericError::HandleTaken);
    }
    let lookup = LookupAccount { address: clone_bytes(target), authority: clone_bytes(authority) };
    store.put(&la, Record::Lookup(lookup));
    Ok(la)
}

/// The target a handle currently resolves to: the address stored in the
/// lookup record at the handle's derived address, or `None` where no such
/// binding exists.
pub open spec fn spec_lookup(
    m: Map<Seq<u8>, RecordV>,
    owner_tag: Seq<u8>,
    handle: Seq<u8>,
) -> Option<Seq<u8>> {
    match lookup_address(owner_tag, handle) {
        None => None,
        Some(la) => {
            if m.contains_key(la) && m[la] is Lookup {
                Some(m[la]->Lookup_0.address)
            } else {
                None
            }
        },
    }
}

/// Resolves a handle to the address it is bound to, if any.
pub fn lookup_handle(store: &Store, ns: HandleSpace, handle: &Vec<u8>) -> (r: Option<Address>)
    requires
        store.wf(),
    ensures
        addr_view(r) == spec_lookup(store@, handle_space_tag(ns), handle@),
{
    let la = match derive_lookup_address(ns, handle) {
        Some(a) => a,
        None => return None,
    };
    match store.get(&la) {
        Some(Record::Lookup(l)) => Some(clone_bytes(&l.address)),
        _ => None,
    }
}

/// What `CreateProfile` does to the store: on valid input and two free
/// derived addresses, it creates the profile and registers its username,
/// else it rejects and changes nothing.
pub open spec fn spec_create_profile(
    m: Map<Seq<u8>, RecordV>,
    input: ProfileV,
    authority: Seq<u8>,
) -> (Result<Seq<u8>, GenericError>, Map<Seq<u8>, RecordV>) {
    match profile_input_error(input) {
        Some(e) => (Err(e), m),
        None => {
            let pa_opt = profile_address(input.random_seed);
            if pa_opt is None {
                (Err(GenericError::InvalidAccount), m)
            } else {
                let pa = pa_opt->0;
                if m.contains_key(pa) {
                    (Err(GenericError::InvalidAccount), m)
                } else {
                    let reg = spec_register(m, profile_tag(), input.username, pa, pa);
                    match reg.0 {
                        Err(e) => (Err(e), m),
                        Ok(_) => {
                            let profile = ProfileV {
                                random_seed: input.random_seed,
                                authority: authority,
                                username: input.username,
                                name: input.name,
                                image_uri: input.image_uri,
                                metadata_uri: input.metadata_uri,
                            };
                            (Ok(pa), reg.1.insert(pa, RecordV::Profile(profile)))
                        },
                    }
                }
            }
        },
    }
}

/// Creates a profile and the lookup record that binds its username.
///
/// `input.authority` is ignored: the created profile is controlled by the
/// `authority` key proven by the caller. Returns the new profile's address.
pub fn process_create_profile(store: &mut Store, input: Profile, authority: &Address) -> (r:
    Result<Address, GenericError>)
    requires
        old(store).wf(),
    ensures
        final(store).wf(),
        ({
            let s = spec_create_profile(old(store)@, input@, authority@);
            created_view(r) == s.0 && final(store)@ == s.1
        }),
{
    match Profile::validate_input(&input) {
        Err(e) => return Err(e),
        Ok(()) => {},
    }
    let pa = match derive_profile_address(&input.random_seed) {
        Some(a) => a,
        None => return Err(GenericError::InvalidAccount),
    };
    if store.contains(&pa) {
        return Err(GenericError::InvalidAccount);
    }
    match register_handle(store, HandleSpace::Profile, &input.username, &pa, &pa) {
        Err(e) => return Err(e),
        Ok(_) => {},
    }
    let profile = Profile {
        random_seed: input.random_seed,
        authority: clone_bytes(authority),
        username: input.username,
        name: input.name,
        image_uri: input.image_uri,
        metadata_uri: input.metadata_uri,
    };
    store.put(&pa, Record::Profile(profile));
    Ok(pa)
}

/// What `UpdateProfile` does to the store: with the profile's own authority
/// proven and valid input, it replaces the mutable display fields, else it
/// rejects and changes nothing.
pub open spec fn spec_update_profile(
    m: Map<Seq<u8>, RecordV>,
    profile_addr: Seq<u8>,
    input: ProfileV,
    proven: Seq<u8>,
) -> (Result<(), GenericError>, Map<Seq<u8>, RecordV>) {
    if !(m.contains_key(profile_addr) && m[profile_addr] is Profile) {
        (Err(GenericError::InvalidAccount), m)
    } else {
        let p = m[profile_addr]->Profile_0;
        if p.authority != proven {
            (Err(GenericError::Unauthorized), m)
        } else {
            match profile_input_error(input) {
                Some(e) => (Err(e), m),
                None => {
                    let p2 = ProfileV {
                        random_seed: p.random_seed,
                        authority: p.authority,
                        username: p.username,
                        name: input.name,
                        image_uri: input.image_uri,
                        metadata_uri: input.metadata_uri,
                    };
                    (Ok(()), m.insert(profile_addr, RecordV::Profile(p2)))
                },
            }
        }
    }
}

/// Updates a profile's display name and URIs. The seed, username and
/// authority are untouched; only the profile's current authority may call.
pub fn process_update_profile(
    store: &mut Store,
    profile_addr: &Address,
    input: Profile,
    proven: &Address,
) -> (r: Result<(), GenericError>)
    requires
        old(store).wf(),
    ensures
        final(store).wf(),
        ({
            let s = spec_update_profile(old(store)@, profile_addr@, input@, proven@);
            r == s.0 && final(store)@ == s.1
        }),
{
    let new_rec = {
        let p = match store.get(profile_addr) {
            Some(Record::Profile(p)) => p,
            _ => {
                return Err(GenericError::InvalidAccount);
            },
        };
        if !bytes_eq(&p.authority, proven) {
            return Err(GenericError::Unauthorized);
        }
        match Profile::validate_input(&input) {
            Err(e) => return Err(e),
            Ok(()) => {},
        }
        Record::Profile(
            Profile {
                random_seed: p.random_seed,
                authority: clone_bytes(&p.authority),
                username: clone_bytes(&p.username),
                name: input.name,
                image_uri: input.image_uri,
                metadata_uri: input.metadata_uri,
            },
        )
    };
    store.put(profile_addr, new_rec);
    Ok(())
}

/// What `ChangeUsername` does to the store: with the profile's authority
/// proven, a valid new username, the old binding present and owned by the
/// profile, and the new binding's address free, it creates the new lookup
/// record, destroys the old one, and rewrites the profile's handle — one
/// atomic unit. Else it rejects and changes nothing.
pub open spec fn spec_change_username(
    m: Map<Seq<u8>, RecordV>,
    profile_addr: Seq<u8>,
    new_username: Seq<u8>,
    proven: Seq<u8>,
) -> (Result<(), GenericError>, Map<Seq<u8>, RecordV>) {
    if !(m.contains_key(profile_addr) && m[profile_addr] is Profile) {
        (Err(GenericError::InvalidAccount), m)
    } else {
        let p = m[profile_addr]->Profile_0;
        if p.authority != proven {
            (Err(GenericError::Unauthorized), m)
        } else {
            match username_error(new_username) {
                Some(e) => (Err(e), m),
                None => {
                    let ola_opt = lookup_address(profile_tag(), p.username);
                    if ola_opt is None {
                        (Err(GenericError::InvalidAccount), m)
                    } else {
                        let ola = ola_opt->0;
                        if !(m.contains_key(ola) && m[ola] is Lookup) {
                            (Err(GenericError::InvalidAccount), m)
                        } else if m[ola]->Lookup_0.authority != profile_addr {
                            (Err(GenericError::Unauthorized), m)
                        } else {
                            let reg = spec_register(
                                m,
                                profile_tag(),
                                new_username,
                                profile_addr,
                                profile_addr,
                            );
                            match reg.0 {
                                Err(e) => (Err(e), m),
                                Ok(_) => {
                                    let p2 = ProfileV {
                                        random_seed: p.random_seed,
                                        authority: p.authority,
                                        username: new_username,
                                        name: p.name,
                                        image_uri: p.image_uri,
                                        metadata_uri: p.metadata_uri,
                                    };
                                    (
                                        Ok(()),
                                        reg.1.remove(ola).insert(
                                            profile_addr,
                                            RecordV::Profile(p2),
                                        ),
                                    )
                                },
                            }
                        }
                    }
                },
            }
        }
    }
}

/// Runs the rename protocol on a profile's username: binds the new handle,
/// releases the old one into it, and rewrites the stored handle, atomically.
pub fn process_change_username(
    store: &mut Store,
    profile_addr: &Address,
    new_username: Vec<u8>,
    proven: &Address,
) -> (r: Result<(), GenericError>)
    requires
        old(store).wf(),
    ensures
        final(store).wf(),
        ({
            let s = spec_change_username(old(store)@, profile_addr@, new_username@, proven@);
            r == s.0 && final(store)@ == s.1
        }),
{
    let (new_rec, ola) = {
        let p = match store.get(profile_addr) {
            Some(Record::Profile(p)) => p,
            _ => {
                return Err(GenericError::InvalidAccount);
            },
        };
        if !bytes_eq(&p.authority, proven) {
            return Err(GenericError::Unauthorized);
        }
        match Profile::validate_username(&new_username) {
            Err(e) => return Err(e),
            Ok(()) => {},
        }
        let ola = match derive_lookup_address(HandleSpace::Profile, &p.username) {
            Some(a) => a,
            None => return Err(GenericError::InvalidAccount),
        };
        let new_rec = Record::Profile(
            Profile {
                random_seed: p.random_seed,
                authority: clone_bytes(&p.authority),
                username: clone_bytes(&new_username),
                name: clone_bytes(&p.name),
                image_uri: clone_bytes(&p.image_uri),
                metadata_uri: clone_bytes(&p.metadata_uri),
            },
        );
        (new_rec, ola)
    };
    {
        let old_lookup = match store.get(&ola) {
            Some(Record::Lookup(l)) => l,
            _ => {
                return Err(GenericError::InvalidAccount);
            },
        };
        if !bytes_eq(&old_lookup.authority, profile_addr) {
            return Err(GenericError::Unauthorized);
        }
    }
    match register_handle(store, HandleSpace::Profile, &new_username, profile_addr, profile_addr) {
        Err(e) => return Err(e),
        Ok(_) => {},
    }
    store.remove(&ola);
    store.put(profile_addr, new_rec);
    Ok(())
}

/// What `CreatePostGroup` does to the store: with the author profile's
/// authority proven, a valid name, and both derived addresses free, it
/// creates the group (count zero) and the lookup record binding its name,
/// else it rejects and changes nothing.
pub open spec fn spec_create_post_group(
    m: Map<Seq<u8>, RecordV>,
    author_addr: Seq<u8>,
    seed: Seq<u8>,
    name: Seq<u8>,
    proven: Seq<u8>,
) -> (Result<Seq<u8>, GenericError>, Map<Seq<u8>, RecordV>) {
    if !(m.contains_key(author_addr) && m[author_addr] is Profile) {
        (Err(GenericError::InvalidAccount), m)
    } else {
        let author = m[author_addr]->Profile_0;
        if author.authority != proven {
            (Err(GenericError::Unauthorized), m)
        } else {
            match group_name_error(name) {
                Some(e) => (Err(e), m),
                None => {
                    let ga_opt = group_address(seed);
                    if ga_opt is None {
                        (Err(GenericError::InvalidAccount), m)
                    } else {
                        let ga = ga_opt->0;
                        if m.contains_key(ga) {
                            (Err(GenericError::InvalidAccount), m)
                        } else {
                            let reg = spec_register(m, group_tag(), name, ga, author_addr);
                            match reg.0 {
                                Err(e) => (Err(e), m),
                                Ok(_) => {
                                    let group = PostGroupV {
                                        random_seed: seed,
                                        authority: author_addr,
                                        post_count: 0,
                                        name: name,
                                    };
                                    (Ok(ga), reg.1.insert(ga, RecordV::Group(group)))
                                },
                            }
                        }
                    }
                },
            }
        }
    }
}

/// Creates a post group owned by the author profile, and the lookup record
/// that binds its name. The group's authority is the profile's address, so
/// a later rotation of the profile's key needs no update here. Returns the
/// new group's address.
pub fn process_create_post_group(
    store: &mut Store,
    author_addr: &Address,
    random_seed: [u8; 32],
    name: Vec<u8>,
    proven: &Address,
) -> (r: Result<Address, GenericError>)
    requires
        old(store).wf(),
    ensures
        final(store).wf(),
        ({
            let s = spec_create_post_group(
                old(store)@,
                author_addr@,
                random_seed@,
                name@,
                proven@,
            );
            created_view(r) == s.0 && final(store)@ == s.1
        }),
{
    {
        let author = match store.get(author_addr) {
            Some(Record::Profile(p)) => p,
            _ => {
                return Err(GenericError::InvalidAccount);
            },
        };
        if !bytes_eq(&author.authority, proven) {
            return Err(GenericError::Unauthorized);
        }
    }
    match PostGroup::validate_name(&name) {
        Err(e) => return Err(e),
        Ok(()) => {},
    }
    let ga = match derive_group_address(&random_seed) {
        Some(a) => a,
        None => return Err(GenericError::InvalidAccount),
    };
    if store.contains(&ga) {
        return Err(GenericError::InvalidAccount);
    }
    match register_handle(store, HandleSpace::Group, &name, &ga, author_addr) {
        Err(e) => return Err(e),
        Ok(_) => {},
    }
    let group = PostGroup {
        random_seed: random_seed,
        authority: clone_bytes(author_addr),
        post_count: 0,
        name: name,
    };
    store.put(&ga, Record::Group(group));
    Ok(ga)
}

/// What `CreatePost` does to the store: with the author's authority proven,
/// the group owned by the author, a valid URI, the counter not exhausted,
/// and the child address free, it creates the post at the group's current
/// index and advances the count by exactly one, else it rejects and changes
/// nothing.
pub open spec fn spec_create_post(
    m: Map<Seq<u8>, RecordV>,
    group_addr: Seq<u8>,
    author_addr: Seq<u8>,
    metadata_uri: Seq<u8>,
    proven: Seq<u8>,
) -> (Result<(Seq<u8>, u32), GenericError>, Map<Seq<u8>, RecordV>) {
    if !(m.contains_key(author_addr) && m[author_addr] is Profile) {
        (Err(GenericError::InvalidAccount), m)
    } else {
        let author = m[author_addr]->Profile_0;
        if author.authority != proven {
            (Err(GenericError::Unauthorized), m)
        } else if !(m.contains_key(group_addr) && m[group_addr] is Group) {
            (Err(GenericError::InvalidAccount), m)
        } else {
            let group = m[group_addr]->Group_0;
            if group.authority != author_addr {
                (Err(GenericError::Unauthorized), m)
            } else {
                match uri_error(metadata_uri) {
                    Some(e) => (Err(e), m),
                    None => {
                        if group.post_count == u32::MAX {
                            (Err(GenericError::CounterOverflow), m)
                        } else {
                            let pa_opt = post_address(group_addr, group.post_count as nat);
                            if pa_opt is None {
                                (Err(GenericError::InvalidAccount), m)
                            } else {
                                let pa = pa_opt->0;
                                if m.contains_key(pa) {
                                    (Err(GenericError::InvalidAccount), m)
                                } else {
                                    let post = PostV {
                                        group: group_addr,
                                        post_id: group.post_count,
                                        author: author_addr,
                                        parent_post: None,
                                        reply_count: 0,
                                        metadata_uri: metadata_uri,
                                    };
                                    let group2 = PostGroupV {
                                        random_seed: group.random_seed,
                                        authority: group.authority,
                                        post_count: (group.post_count + 1) as u32,
                                        name: group.name,
                                    };
                                    (
                                        Ok((pa, group.post_count)),
                                        m.insert(pa, RecordV::Post(post)).insert(
                                            group_addr,
                                            RecordV::Group(group2),
                                        ),
                                    )
                                }
                            }
                        }
                    },
                }
            }
        }
    }
}

/// Creates a root post in a group. The post consumes the group's current
/// count as its index — read first, then advanced by one — so indices are
/// gapless from zero. Returns the new post's address and its index.
pub fn process_create_post(
    store: &mut Store,
    group_addr: &Address,
    author_addr: &Address,
    metadata_uri: Vec<u8>,
    proven: &Address,
) -> (r: Result<(Address, u32), GenericError>)
    requires
        old(store).wf(),
    ensures
        final(store).wf(),
        ({
            let s = spec_create_post(
                old(store)@,
                group_addr@,
                author_addr@,
                metadata_uri@,
                proven@,
            );
            indexed_view(r) == s.0 && final(store)@ == s.1
        }),
{
    {
        let author = match store.get(author_addr) {
            Some(Record::Profile(p)) => p,
            _ => {
                return Err(GenericError::InvalidAccount);
            },
        };
        if !bytes_eq(&author.authority, proven) {
            return Err(GenericError::Unauthorized);
        }
    }
    let (index, new_group) = {
        let group = match store.get(group_addr) {
            Some(Record::Group(g)) => g,
            _ => {
                return Err(GenericError::InvalidAccount);
            },
        };
        if !bytes_eq(&group.authority, author_addr) {
            return Err(GenericError::Unauthorized);
        }
        match Post::validate_uri(&metadata_uri) {
            Err(e) => return Err(e),
            Ok(()) => {},
        }
        if group.post_count == u32::MAX {
            return Err(GenericError::CounterOverflow);
        }
        let new_group = PostGroup {
            random_seed: group.random_seed,
            authority: clone_bytes(&group.authority),
            post_count: group.post_count + 1,
            name: clone_bytes(&group.name),
        };
        (group.post_count, new_group)
    };
    let pa = match derive_post_address(group_addr, index) {
        Some(a) => a,
        None => return Err(GenericError::InvalidAccount),
    };
    if store.contains(&pa) {
        return Err(GenericError::InvalidAccount);
    }
    let post = Post {
        group: clone_bytes(group_addr),
        post_id: index,
        author: clone_bytes(author_addr),
        parent_post: None,
        reply_count: 0,
        metadata_uri: metadata_uri,
    };
    store.put(&pa, Record::Post(post));
    store.put(group_addr, Record::Group(new_group));
    Ok((pa, index))
}

/// What `CreateReply` does to the store: with the author's authority proven,
/// the parent post present, a valid URI, the parent's reply counter not
/// exhausted, and the child address free, it creates the reply at the
/// parent's current reply index and advances that counter by exactly one,
/// else it rejects and changes nothing. The reply nests under the replied-to
/// post, so a thread forms a tree.
pub open spec fn spec_create_reply(
    m: Map<Seq<u8>, RecordV>,
    parent_addr: Seq<u8>,
    author_addr: Seq<u8>,
    metadata_uri: Seq<u8>,
    proven: Seq<u8>,
) -> (Result<(Seq<u8>, u32), GenericError>, Map<Seq<u8>, RecordV>) {
    if !(m.contains_key(author_addr) && m[author_addr] is Profile) {
        (Err(GenericError::InvalidAccount), m)
    } else {
        let author = m[author_addr]->Profile_0;
        if author.authority != proven {
            (Err(GenericError::Unauthorized), m)
        } else if !(m.contains_key(parent_addr) && m[parent_addr] is Post) {
            (Err(GenericError::InvalidAccount), m)
        } else {
            let parent = m[parent_addr]->Post_0;
            match uri_error(metadata_uri) {
                Some(e) => (Err(e), m),
                None => {
                    if parent.reply_count == u32::MAX {
                        (Err(GenericError::CounterOverflow), m)
                    } else {
                        let ra_opt = post_address(parent_addr, parent.reply_count as nat);
                        if ra_opt is None {
                            (Err(GenericError::InvalidAccount), m)
                        } else {
                            let ra = ra_opt->0;
                            if m.contains_key(ra) {
                                (Err(GenericError::InvalidAccount), m)
                            } else {
                                let reply = PostV {
                                    group: parent.group,
                                    post_id: parent.reply_count,
                                    author: author_addr,
                                    parent_post: Some(parent_addr),
                                    reply_count: 0,
                                    metadata_uri: metadata_uri,
                                };
                                let parent2 = PostV {
                                    group: parent.group,
                                    post_id: parent.post_id,
                                    author: parent.author,
                                    parent_post: parent.parent_post,
                                    reply_count: (parent.reply_count + 1) as u32,
                                    metadata_uri: parent.metadata_uri,
                                };
                                (
                                    Ok((ra, parent.reply_count)),
                                    m.insert(ra, RecordV::Post(reply)).insert(
                                        parent_addr,
                                        RecordV::Post(parent2),
                                    ),
                                )
                            }
                        }
                    }
                },
            }
        }
    }
}

/// Creates a reply to an existing post. The reply consumes the parent
/// post's current reply count as its index — read first, then advanced by
/// one — and its address derives from the parent post, not the root group.
/// Returns the new reply's address and its index.
pub fn process_create_reply(
    store: &mut Store,
    parent_addr: &Address,
    author_addr: &Address,
    metadata_uri: Vec<u8>,
    proven: &Address,
) -> (r: Result<(Address, u32), GenericError>)
    requires
        old(store).wf(),
    ensures
        final(store).wf(),
        ({
            let s = spec_create_reply(
                old(store)@,
                parent_addr@,
                author_addr@,
                metadata_uri@,
                proven@,
            );
            indexed_view(r) == s.0 && final(store)@ == s.1
        }),
{
    {
        let author = match store.get(author_addr) {
            Some(Record::Profile(p)) => p,
            _ => {
                return Err(GenericError::InvalidAccount);
            },
        };
        if !bytes_eq(&author.authority, proven) {
            return Err(GenericError::Unauthorized);
        }
    }
    let (index, reply_group, new_parent) = {
        let parent = match store.get(parent_addr) {
            Some(Record::Post(p)) => p,
            _ => {
                return Err(GenericError::InvalidAccount);
            },
        };
        match Post::validate_uri(&metadata_uri) {
            Err(e) => return Err(e),
            Ok(()) => {},
        }
        if parent.reply_count == u32::MAX {
            return Err(GenericError::CounterOverflow);
        }
        let new_parent = Post {
            group: clone_bytes(&parent.group),
            post_id: parent.post_id,
            author: clone_bytes(&parent.author),
            parent_post: match &parent.parent_post {
                Some(a) => Some(clone_bytes(a)),
                None => None,
            },
            reply_count: parent.reply_count + 1,
            metadata_uri: clone_bytes(&parent.metadata_uri),
        };
        (parent.reply_count, clone_bytes(&parent.group), new_parent)
    };
    let ra = match derive_post_address(parent_addr, index) {
        Some(a) => a,
        None => return Err(GenericError::InvalidAccount),
    };
    if store.contains(&ra) {
        return Err(GenericError::InvalidAccount);
    }
    let reply = Post {
        group: reply_group,
        post_id: index,
        author: clone_bytes(author_addr),
        parent_post: Some(clone_bytes(parent_addr)),
        reply_count: 0,
        metadata_uri: metadata_uri,
    };
    store.put(&ra, Record::Post(reply));
    store.put(parent_addr, Record::Post(new_parent));
    Ok((ra, index))
}

/// What `UpdatePost` does to the store: with the post authored by the named
/// profile, that profile's authority proven, and a valid URI, it replaces
/// the post's metadata URI only, else it rejects and changes nothing. The
/// authority check resolves one hop: the post names its author's address,
/// and the author profile's live key must match the proven one.
pub open spec fn spec_update_post(
    m: Map<Seq<u8>, RecordV>,
    post_addr: Seq<u8>,
    author_addr: Seq<u8>,
    metadata_uri: Seq<u8>,
    proven: Seq<u8>,
) -> (Result<(), GenericError>, Map<Seq<u8>, RecordV>) {
    if !(m.contains_key(post_addr) && m[post_addr] is Post) {
        (Err(GenericError::InvalidAccount), m)
    } else {
        let post = m[post_addr]->Post_0;
        if post.author != author_addr {
            (Err(GenericError::InvalidAccount), m)
        } else if !(m.contains_key(author_addr) && m[author_addr] is Profile) {
            (Err(GenericError::InvalidAccount), m)
        } else {
            let author = m[author_addr]->Profile_0;
            if author.authority != proven {
                (Err(GenericError::Unauthorized), m)
            } else {
                match uri_error(metadata_uri) {
                    Some(e) => (Err(e), m),
                    None => {
                        let post2 = PostV {
                            group: post.group,
                            post_id: post.post_id,
                            author: post.author,
                            parent_post: post.parent_post,
                            reply_count: post.reply_count,
                            metadata_uri: metadata_uri,
                        };
                        (Ok(()), m.insert(post_addr, RecordV::Post(post2)))
                    },
                }
            }
        }
    }
}

/// Updates a post's metadata URI. Only the current authority of the
/// authoring profile may call, resolved through the author's address.
pub fn process_update_post(
    store: &mut Store,
    post_addr: &Address,
    author_addr: &Address,
    metadata_uri: Vec<u8>,
    proven: &Address,
) -> (r: Result<(), GenericError>)
    requires
        old(store).wf(),
    ensures
        final(store).wf(),
        ({
            let s = spec_update_post(old(store)@, post_addr@, author_addr@, metadata_uri@, proven@);
            r == s.0 && final(store)@ == s.1
        }),
{
    {
        let post = match store.get(post_addr) {
            Some(Record::Post(p)) => p,
            _ => {
                return Err(GenericError::InvalidAccount);
            },
        };
        if !bytes_eq(&post.author, author_addr) {
            return Err(GenericError::InvalidAccount);
        }
    }
    {
        let author = match store.get(author_addr) {
            Some(Record::Profile(p)) => p,
            _ => {
                return Err(GenericError::InvalidAccount);
            },
        };
        if !bytes_eq(&author.authority, proven) {
            return Err(GenericError::Unauthorized);
        }
    }
    match Post::validate_uri(&metadata_uri) {
        Err(e) => return Err(e),
        Ok(()) => {},
    }
    let new_rec = {
        let post = match store.get(post_addr) {
            Some(Record::Post(p)) => p,
            _ => {
                return Err(GenericError::InvalidAccount);
            },
        };
        Record::Post(
            Post {
                group: clone_bytes(&post.group),
                post_id: post.post_id,
                author: clone_bytes(&post.author),
                parent_post: match &post.parent_post {
                    Some(a) => Some(clone_bytes(a)),
                    None => None,
                },
                reply_count: post.reply_count,
                metadata_uri: metadata_uri,
            },
        )
    };
    store.put(post_addr, new_rec);
    Ok(())
}

} // verus!

use social_engine::{
    derive_post_address, lookup_handle, process_change_username, process_create_post,
    process_create_post_group, process_create_profile, process_create_reply, process_update_post,
    process_update_profile, register_handle, GenericError, HandleSpace, Post, PostGroup, Profile,
    Record, Store,
};

fn seed(n: u8) -> [u8; 32] {
    [n; 32]
}

fn key(n: u8) -> Vec<u8> {
    vec![n; 32]
}

fn profile_input(n: u8, username: &[u8]) -> Profile {
    Profile {
        random_seed: seed(n),
        authority: Vec::new(),
        username: username.to_vec(),
        name: b"a display name".to_vec(),
        image_uri: b"ipfs://image".to_vec(),
        metadata_uri: b"ipfs://meta".to_vec(),
    }
}

fn store_with_alice() -> (Store, Vec<u8>) {
    let mut store = Store::new();
    let addr = process_create_profile(&mut store, profile_input(1, b"alice"), &key(10)).unwrap();
    (store, addr)
}

#[test]
fn create_profile_stores_record_and_binding() {
    let (store, addr) = store_with_alice();
    match store.get(&addr) {
        Some(Record::Profile(p)) => {
            assert_eq!(p.username, b"alice".to_vec());
            assert_eq!(p.authority, key(10));
            assert_eq!(p.random_seed, seed(1));
        },
        _ => panic!("expected a profile record"),
    }
    let target = lookup_handle(&store, HandleSpace::Profile, &b"alice".to_vec()).unwrap();
    assert_eq!(target, addr);
}

#[test]
fn create_profile_same_seed_rejected() {
    let (mut store, _) = store_with_alice();
    let r = process_create_profile(&mut store, profile_input(1, b"bob"), &key(11));
    assert_eq!(r, Err(GenericError::InvalidAccount));
}

#[test]
fn create_profile_username_taken() {
    let (mut store, _) = store_with_alice();
    let r = process_create_profile(&mut store, profile_input(2, b"alice"), &key(11));
    assert_eq!(r, Err(GenericError::HandleTaken));
    // the failed attempt left nothing behind: its seed address is still free
    let r2 = process_create_profile(&mut store, profile_input(2, b"bob"), &key(11));
    assert!(r2.is_ok());
}

#[test]
fn register_same_handle_twice_fails() {
    let mut store = Store::new();
    let target = key(20);
    let first = register_handle(&mut store, HandleSpace::Group, &b"blog".to_vec(), &target, &target);
    assert!(first.is_ok());
    let second =
        register_handle(&mut store, HandleSpace::Group, &b"blog".to_vec(), &key(21), &key(21));
    assert_eq!(second, Err(GenericError::HandleTaken));
}

#[test]
fn create_profile_username_too_long() {
    let mut store = Store::new();
    let r = process_create_profile(&mut store, profile_input(1, &[b'a'; 29]), &key(10));
    assert_eq!(r, Err(GenericError::HandleTooLong));
    let ok = process_create_profile(&mut store, profile_input(1, &[b'a'; 28]), &key(10));
    assert!(ok.is_ok());
}

#[test]
fn create_profile_invalid_username_charset() {
    let mut store = Store::new();
    let r = process_create_profile(&mut store, profile_input(1, b"Alice"), &key(10));
    assert_eq!(r, Err(GenericError::InvalidHandle));
    let r2 = process_create_profile(&mut store, profile_input(1, b"al ice"), &key(10));
    assert_eq!(r2, Err(GenericError::InvalidHandle));
    let ok = process_create_profile(&mut store, profile_input(1, b"a-l_i9ce"), &key(10));
    assert!(ok.is_ok());
}

#[test]
fn create_profile_display_name_too_long() {
    let mut store = Store::new();
    let mut input = profile_input(1, b"alice");
    input.name = vec![b'x'; 129];
    assert_eq!(
        process_create_profile(&mut store, input, &key(10)),
        Err(GenericError::HandleTooLong)
    );
    let mut input = profile_input(1, b"alice");
    input.name = vec![b'x'; 128];
    assert!(process_create_profile(&mut store, input, &key(10)).is_ok());
}

#[test]
fn create_profile_uri_too_long() {
    let mut store = Store::new();
    let mut input = profile_input(1, b"alice");
    input.metadata_uri = vec![b'u'; 257];
    assert_eq!(
        process_create_profile(&mut store, input, &key(10)),
        Err(GenericError::UriTooLong)
    );
    let mut input = profile_input(1, b"alice");
    input.image_uri = vec![b'u'; 257];
    assert_eq!(
        process_create_profile(&mut store, input, &key(10)),
        Err(GenericError::UriTooLong)
    );
}

#[test]
fn update_profile_by_authority() {
    let (mut store, addr) = store_with_alice();
    let mut input = profile_input(1, b"alice");
    input.name = b"another name".to_vec();
    assert_eq!(process_update_profile(&mut store, &addr, input, &key(10)), Ok(()));
    match store.get(&addr) {
        Some(Record::Profile(p)) => {
            assert_eq!(p.name, b"another name".to_vec());
            assert_eq!(p.username, b"alice".to_vec());
        },
        _ => panic!("expected a profile record"),
    }
}

#[test]
fn update_profile_unauthorized_leaves_record_unchanged() {
    let (mut store, addr) = store_with_alice();
    let mut input = profile_input(1, b"alice");
    input.name = b"evil name".to_vec();
    let r = process_update_profile(&mut store, &addr, input, &key(99));
    assert_eq!(r, Err(GenericError::Unauthorized));
    match store.get(&addr) {
        Some(Record::Profile(p)) => assert_eq!(p.name, b"a display name".to_vec()),
        _ => panic!("expected a profile record"),
    }
}

#[test]
fn update_profile_missing_record() {
    let mut store = Store::new();
    let r = process_update_profile(&mut store, &key(50), profile_input(1, b"alice"), &key(10));
    assert_eq!(r, Err(GenericError::InvalidAccount));
}

#[test]
fn change_username_rebinds_handle() {
    let (mut store, addr) = store_with_alice();
    assert_eq!(
        process_change_username(&mut store, &addr, b"alicia".to_vec(), &key(10)),
        Ok(())
    );
    assert_eq!(lookup_handle(&store, HandleSpace::Profile, &b"alice".to_vec()), None);
    assert_eq!(
        lookup_handle(&store, HandleSpace::Profile, &b"alicia".to_vec()),
        Some(addr.clone())
    );
    match store.get(&addr) {
        Some(Record::Profile(p)) => assert_eq!(p.username, b"alicia".to_vec()),
        _ => panic!("expected a profile record"),
    }
}

#[test]
fn change_username_to_taken_handle_fails() {
    let (mut store, addr) = store_with_alice();
    process_create_profile(&mut store, profile_input(2, b"bob"), &key(11)).unwrap();
    let r = process_change_username(&mut store, &addr, b"bob".to_vec(), &key(10));
    assert_eq!(r, Err(GenericError::HandleTaken));
    // nothing moved: both old handles still resolve
    assert_eq!(
        lookup_handle(&store, HandleSpace::Profile, &b"alice".to_vec()),
        Some(addr)
    );
}

#[test]
fn change_username_unauthorized() {
    let (mut store, addr) = store_with_alice();
    let r = process_change_username(&mut store, &addr, b"alicia".to_vec(), &key(99));
    assert_eq!(r, Err(GenericError::Unauthorized));
}

#[test]
fn change_username_to_same_name_fails() {
    let (mut store, addr) = store_with_alice();
    let r = process_change_username(&mut store, &addr, b"alice".to_vec(), &key(10));
    assert_eq!(r, Err(GenericError::HandleTaken));
}

#[test]
fn create_group_and_lookup() {
    let (mut store, profile) = store_with_alice();
    let group =
        process_create_post_group(&mut store, &profile, seed(30), b"blog".to_vec(), &key(10))
            .unwrap();
    match store.get(&group) {
        Some(Record::Group(g)) => {
            assert_eq!(g.post_count, 0);
            assert_eq!(g.name, b"blog".to_vec());
            assert_eq!(g.authority, profile);
        },
        _ => panic!("expected a group record"),
    }
    assert_eq!(
        lookup_handle(&store, HandleSpace::Group, &b"blog".to_vec()),
        Some(group)
    );
}

#[test]
fn create_group_unauthorized() {
    let (mut store, profile) = store_with_alice();
    let r = process_create_post_group(&mut store, &profile, seed(30), b"blog".to_vec(), &key(99));
    assert_eq!(r, Err(GenericError::Unauthorized));
}

#[test]
fn create_group_name_too_long() {
    let (mut store, profile) = store_with_alice();
    let r =
        process_create_post_group(&mut store, &profile, seed(30), vec![b'g'; 33], &key(10));
    assert_eq!(r, Err(GenericError::HandleTooLong));
    let ok = process_create_post_group(&mut store, &profile, seed(30), vec![b'g'; 32], &key(10));
    assert!(ok.is_ok());
}

#[test]
fn create_group_name_taken() {
    let (mut store, profile) = store_with_alice();
    process_create_post_group(&mut store, &profile, seed(30), b"blog".to_vec(), &key(10)).unwrap();
    let r = process_create_post_group(&mut store, &profile, seed(31), b"blog".to_vec(), &key(10));
    assert_eq!(r, Err(GenericError::HandleTaken));
}

#[test]
fn posts_get_gapless_indices() {
    let (mut store, profile) = store_with_alice();
    let group =
        process_create_post_group(&mut store, &profile, seed(30), b"blog".to_vec(), &key(10))
            .unwrap();
    for expected in 0..5u32 {
        let (addr, index) = process_create_post(
            &mut store,
            &group,
            &profile,
            b"ipfs://post".to_vec(),
            &key(10),
        )
        .unwrap();
        assert_eq!(index, expected);
        // the post's address is recomputable from the group and the index
        assert_eq!(addr, derive_post_address(&group, expected).unwrap());
        match store.get(&addr) {
            Some(Record::Post(p)) => {
                assert_eq!(p.post_id, expected);
                assert_eq!(p.group, group);
                assert_eq!(p.author, profile);
                assert_eq!(p.parent_post, None);
                assert_eq!(p.reply_count, 0);
            },
            _ => panic!("expected a post record"),
        }
    }
    match store.get(&group) {
        Some(Record::Group(g)) => assert_eq!(g.post_count, 5),
        _ => panic!("expected a group record"),
    }
}

#[test]
fn create_post_on_foreign_group_unauthorized() {
    let (mut store, alice) = store_with_alice();
    let bob = process_create_profile(&mut store, profile_input(2, b"bob"), &key(11)).unwrap();
    let group =
        process_create_post_group(&mut store, &alice, seed(30), b"blog".to_vec(), &key(10))
            .unwrap();
    let r = process_create_post(&mut store, &group, &bob, b"ipfs://post".to_vec(), &key(11));
    assert_eq!(r, Err(GenericError::Unauthorized));
}

#[test]
fn create_post_uri_too_long() {
    let (mut store, profile) = store_with_alice();
    let group =
        process_create_post_group(&mut store, &profile, seed(30), b"blog".to_vec(), &key(10))
            .unwrap();
    let r = process_create_post(&mut store, &group, &profile, vec![b'u'; 257], &key(10));
    assert_eq!(r, Err(GenericError::UriTooLong));
    match store.get(&group) {
        Some(Record::Group(g)) => assert_eq!(g.post_count, 0),
        _ => panic!("expected a group record"),
    }
}

#[test]
fn replies_get_gapless_indices_under_parent() {
    let (mut store, profile) = store_with_alice();
    let group =
        process_create_post_group(&mut store, &profile, seed(30), b"blog".to_vec(), &key(10))
            .unwrap();
    let (post, _) =
        process_create_post(&mut store, &group, &profile, b"ipfs://root".to_vec(), &key(10))
            .unwrap();
    for expected in 0..3u32 {
        let (addr, index) = process_create_reply(
            &mut store,
            &post,
            &profile,
            b"ipfs://reply".to_vec(),
            &key(10),
        )
        .unwrap();
        assert_eq!(index, expected);
        // reply addresses nest under the replied-to post, not the group
        assert_eq!(addr, derive_post_address(&post, expected).unwrap());
        match store.get(&addr) {
            Some(Record::Post(p)) => {
                assert_eq!(p.post_id, expected);
                assert_eq!(p.parent_post, Some(post.clone()));
                assert_eq!(p.group, group);
            },
            _ => panic!("expected a post record"),
        }
    }
    match store.get(&post) {
        Some(Record::Post(p)) => assert_eq!(p.reply_count, 3),
        _ => panic!("expected a post record"),
    }
}

#[test]
fn reply_by_another_profile_is_allowed() {
    let (mut store, alice) = store_with_alice();
    let bob = process_create_profile(&mut store, profile_input(2, b"bob"), &key(11)).unwrap();
    let group =
        process_create_post_group(&mut store, &alice, seed(30), b"blog".to_vec(), &key(10))
            .unwrap();
    let (post, _) =
        process_create_post(&mut store, &group, &alice, b"ipfs://root".to_vec(), &key(10))
            .unwrap();
    let r = process_create_reply(&mut store, &post, &bob, b"ipfs://reply".to_vec(), &key(11));
    assert!(r.is_ok());
}

#[test]
fn update_post_by_author() {
    let (mut store, profile) = store_with_alice();
    let group =
        process_create_post_group(&mut store, &profile, seed(30), b"blog".to_vec(), &key(10))
            .unwrap();
    let (post, _) =
        process_create_post(&mut store, &group, &profile, b"ipfs://old".to_vec(), &key(10))
            .unwrap();
    assert_eq!(
        process_update_post(&mut store, &post, &profile, b"ipfs://new".to_vec(), &key(10)),
        Ok(())
    );
    match store.get(&post) {
        Some(Record::Post(p)) => assert_eq!(p.metadata_uri, b"ipfs://new".to_vec()),
        _ => panic!("expected a post record"),
    }
}

#[test]
fn update_post_unauthorized_leaves_record_unchanged() {
    let (mut store, profile) = store_with_alice();
    let group =
        process_create_post_group(&mut store, &profile, seed(30), b"blog".to_vec(), &key(10))
            .unwrap();
    let (post, _) =
        process_create_post(&mut store, &group, &profile, b"ipfs://old".to_vec(), &key(10))
            .unwrap();
    let r = process_update_post(&mut store, &post, &profile, b"ipfs://new".to_vec(), &key(99));
    assert_eq!(r, Err(GenericError::Unauthorized));
    match store.get(&post) {
        Some(Record::Post(p)) => assert_eq!(p.metadata_uri, b"ipfs://old".to_vec()),
        _ => panic!("expected a post record"),
    }
}

#[test]
fn update_post_wrong_author() {
    let (mut store, alice) = store_with_alice();
    let bob = process_create_profile(&mut store, profile_input(2, b"bob"), &key(11)).unwrap();
    let group =
        process_create_post_group(&mut store, &alice, seed(30), b"blog".to_vec(), &key(10))
            .unwrap();
    let (post, _) =
        process_create_post(&mut store, &group, &alice, b"ipfs://old".to_vec(), &key(10))
            .unwrap();
    // naming a profile that did not author the post is a relationship error
    let r = process_update_post(&mut store, &post, &bob, b"ipfs://new".to_vec(), &key(11));
    assert_eq!(r, Err(GenericError::InvalidAccount));
}

#[test]
fn post_counter_overflow_rejected() {
    let (mut store, profile) = store_with_alice();
    let group =
        process_create_post_group(&mut store, &profile, seed(30), b"blog".to_vec(), &key(10))
            .unwrap();
    // place the group's counter at its ceiling, as the substrate would
    // after that many accepted posts
    store.put(
        &group,
        Record::Group(PostGroup {
            random_seed: seed(30),
            authority: profile.clone(),
            post_count: u32::MAX,
            name: b"blog".to_vec(),
        }),
    );
    let r = process_create_post(&mut store, &group, &profile, b"ipfs://post".to_vec(), &key(10));
    assert_eq!(r, Err(GenericError::CounterOverflow));
    match store.get(&group) {
        Some(Record::Group(g)) => assert_eq!(g.post_count, u32::MAX),
        _ => panic!("expected a group record"),
    }
}

#[test]
fn reply_counter_overflow_rejected() {
    let (mut store, profile) = store_with_alice();
    let group =
        process_create_post_group(&mut store, &profile, seed(30), b"blog".to_vec(), &key(10))
            .unwrap();
    let (post, _) =
        process_create_post(&mut store, &group, &profile, b"ipfs://root".to_vec(), &key(10))
            .unwrap();
    store.put(
        &post,
        Record::Post(Post {
            group: group.clone(),
            post_id: 0,
            author: profile.clone(),
            parent_post: None,
            reply_count: u32::MAX,
            metadata_uri: b"ipfs://root".to_vec(),
        }),
    );
    let r = process_create_reply(&mut store, &post, &profile, b"ipfs://reply".to_vec(), &key(10));
    assert_eq!(r, Err(GenericError::CounterOverflow));
}

#[test]
fn empty_username_is_registrable() {
    // the handle character set constrains every byte; an empty handle has
    // none and binds like any other
    let mut store = Store::new();
    let addr = process_create_profile(&mut store, profile_input(1, b""), &key(10)).unwrap();
    assert_eq!(lookup_handle(&store, HandleSpace::Profile, &Vec::new()), Some(addr));
}

#[test]
fn register_returns_the_derived_binding_address() {
    let mut store = Store::new();
    let la = register_handle(&mut store, HandleSpace::Profile, &b"carol".to_vec(), &key(20), &key(20))
        .unwrap();
    assert_eq!(
        la,
        social_engine::derive_lookup_address(HandleSpace::Profile, &b"carol".to_vec()).unwrap()
    );
}

#[test]
fn change_username_invalid_charset() {
    let (mut store, addr) = store_with_alice();
    let r = process_change_username(&mut store, &addr, b"Alicia!".to_vec(), &key(10));
    assert_eq!(r, Err(GenericError::InvalidHandle));
    let r2 = process_change_username(&mut store, &addr, vec![b'a'; 29], &key(10));
    assert_eq!(r2, Err(GenericError::HandleTooLong));
}

#[test]
fn create_post_missing_group() {
    let (mut store, profile) = store_with_alice();
    let r = process_create_post(&mut store, &key(77), &profile, b"ipfs://post".to_vec(), &key(10));
    assert_eq!(r, Err(GenericError::InvalidAccount));
}

#[test]
fn create_reply_missing_parent() {
    let (mut store, profile) = store_with_alice();
    let r =
        process_create_reply(&mut store, &key(77), &profile, b"ipfs://reply".to_vec(), &key(10));
    assert_eq!(r, Err(GenericError::InvalidAccount));
}

#[test]
fn create_post_missing_author() {
    let mut store = Store::new();
    let r = process_create_post(&mut store, &key(77), &key(78), b"ipfs://post".to_vec(), &key(10));
    assert_eq!(r, Err(GenericError::InvalidAccount));
}

use social_engine::{
    derive_post_address, derive_profile_address, lookup_handle, process_change_username,
    process_create_post, process_create_post_group, process_create_profile, process_create_reply,
    GenericError, HandleSpace, Profile, Record, Store,
};

#[test]
fn full_social_graph_scenario() {
    let mut store = Store::new();
    let owner_key: Vec<u8> = vec![7; 32];
    let profile_seed: [u8; 32] = [99; 32];

    // create profile seed=S, username="alice"
    let profile = process_create_profile(
        &mut store,
        Profile {
            random_seed: profile_seed,
            authority: Vec::new(),
            username: b"alice".to_vec(),
            name: b"Alice Display".to_vec(),
            image_uri: b"ipfs://alice-image".to_vec(),
            metadata_uri: b"ipfs://alice-meta".to_vec(),
        },
        &owner_key,
    )
    .unwrap();
    // the profile's address is recomputable off-line from the seed alone
    assert_eq!(profile, derive_profile_address(&profile_seed).unwrap());

    // create group name="blog"
    let group =
        process_create_post_group(&mut store, &profile, [55; 32], b"blog".to_vec(), &owner_key)
            .unwrap();

    // create post metadata_uri="ipfs://a": index 0
    let (post, post_index) =
        process_create_post(&mut store, &group, &profile, b"ipfs://a".to_vec(), &owner_key)
            .unwrap();
    assert_eq!(post_index, 0);
    assert_eq!(post, derive_post_address(&group, 0).unwrap());

    // create reply to that post metadata_uri="ipfs://b": index 0 under the
    // post, and the parent's reply count becomes 1
    let (reply, reply_index) =
        process_create_reply(&mut store, &post, &profile, b"ipfs://b".to_vec(), &owner_key)
            .unwrap();
    assert_eq!(reply_index, 0);
    assert_eq!(reply, derive_post_address(&post, 0).unwrap());
    match store.get(&post) {
        Some(Record::Post(p)) => assert_eq!(p.reply_count, 1),
        _ => panic!("expected a post record"),
    }
    match store.get(&reply) {
        Some(Record::Post(p)) => {
            assert_eq!(p.parent_post, Some(post.clone()));
            assert_eq!(p.metadata_uri, b"ipfs://b".to_vec());
        },
        _ => panic!("expected a post record"),
    }

    // rename "alice" -> "alicia": the old handle stops resolving, the new
    // one resolves to the same profile address as before
    assert_eq!(
        process_change_username(&mut store, &profile, b"alicia".to_vec(), &owner_key),
        Ok(())
    );
    assert_eq!(lookup_handle(&store, HandleSpace::Profile, &b"alice".to_vec()), None);
    assert_eq!(
        lookup_handle(&store, HandleSpace::Profile, &b"alicia".to_vec()),
        Some(profile.clone())
    );

    // a newcomer can now take the released handle
    let newcomer = process_create_profile(
        &mut store,
        Profile {
            random_seed: [100; 32],
            authority: Vec::new(),
            username: b"alice".to_vec(),
            name: b"New Alice".to_vec(),
            image_uri: Vec::new(),
            metadata_uri: Vec::new(),
        },
        &vec![8; 32],
    );
    assert!(newcomer.is_ok());
    assert_ne!(newcomer.unwrap(), profile);

    // but "alicia" is taken
    let taken = process_create_profile(
        &mut store,
        Profile {
            random_seed: [101; 32],
            authority: Vec::new(),
            username: b"alicia".to_vec(),
            name: Vec::new(),
            image_uri: Vec::new(),
            metadata_uri: Vec::new(),
        },
        &vec![9; 32],
    );
    assert_eq!(taken, Err(GenericError::HandleTaken));
}

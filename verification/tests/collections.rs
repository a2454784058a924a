use libluminate::access::{list_request, PrincipalId};
use libluminate::collections::{
    collection, collection_fixture, id_request, create_collection_request,
    found_or_not_found, luminate_collection_description, luminate_collection_id,
    luminate_collection_kind, luminate_collection_list_at, luminate_collection_list_count,
    luminate_collection_list_free, luminate_collection_member_at,
    luminate_collection_member_collection_id, luminate_collection_member_count,
    luminate_collection_member_kind, luminate_collection_member_target, luminate_collection_name,
    luminate_collection_owner, luminate_collection_snapshot_collection,
    luminate_collection_snapshot_free, luminate_owner_identity_kind,
    luminate_owner_identity_principal_authority, luminate_owner_identity_principal_subject,
    luminate_owner_identity_sid, luminate_owner_identity_uid, member_request, read_collection_member,
    read_members, read_target, sid_owned_collection, Collection, CollectionMember,
    LuminateCollectionList, LuminateCollectionMemberInput, LuminateCollectionSnapshot,
    LuminateTarget, OwnerIdentity, LUMINATE_OWNER_KIND_INVALID, LUMINATE_OWNER_KIND_PRINCIPAL,
    LUMINATE_OWNER_KIND_SID, LUMINATE_OWNER_KIND_UID,
};
use libluminate::status::{Diagnostics, Error, LastError, LuminateStatus, TargetId};

fn device(id: &str) -> TargetId {
    TargetId { device: id.to_owned(), surface: None, element: None, group: None }
}

fn no_target() -> LuminateTarget<'static> {
    LuminateTarget { device_id: None, surface_id: None, element_id: None, group_id: None }
}

#[test]
fn collection_accessors_cover_member_variants() {
    let collection = collection(vec![
        CollectionMember::Target(device("lamp")),
        CollectionMember::Collection("nook".to_owned()),
    ]);
    let c = Some(&collection);
    assert_eq!(luminate_collection_id(c), Some("living-room"));
    assert_eq!(luminate_collection_name(c), Some("Living Room"));
    assert_eq!(luminate_collection_description(c), Some("Downstairs lighting"));
    let owner = luminate_collection_owner(c);
    assert_eq!(luminate_owner_identity_kind(owner), LUMINATE_OWNER_KIND_UID);
    let mut uid = 0;
    assert!(luminate_owner_identity_uid(owner, Some(&mut uid)));
    assert_eq!(uid, 501);
    assert_eq!(luminate_owner_identity_sid(owner), None);
    assert_eq!(luminate_collection_kind(c), Some("location"));
    assert_eq!(luminate_collection_member_count(c), 2);
    assert!(luminate_collection_member_at(c, 2).is_none());

    let target = luminate_collection_member_at(c, 0);
    assert_eq!(luminate_collection_member_kind(target), 0);
    assert!(luminate_collection_member_target(target).is_some());
    assert_eq!(luminate_collection_member_collection_id(target), None);
    assert_eq!(luminate_collection_member_target(target).map(|t| t.device.as_str()), Some("lamp"));

    let nested = luminate_collection_member_at(c, 1);
    assert_eq!(luminate_collection_member_kind(nested), 1);
    assert!(luminate_collection_member_target(nested).is_none());
    assert_eq!(luminate_collection_member_collection_id(nested), Some("nook"));
}

#[test]
fn sid_owned_collection_exposes_owner_kind_and_sid() {
    let collection = sid_owned_collection();
    let owner = luminate_collection_owner(Some(&collection));
    assert_eq!(luminate_owner_identity_kind(owner), LUMINATE_OWNER_KIND_SID);
    let mut uid = 7;
    assert!(!luminate_owner_identity_uid(owner, Some(&mut uid)));
    assert_eq!(uid, 7);
    assert_eq!(luminate_owner_identity_sid(owner), Some("S-1-5-21-1-2-3-1000"));
}

#[test]
fn principal_owned_collection_exposes_complete_identity() {
    let collection = Collection {
        owner: OwnerIdentity::Principal(PrincipalId::new("oidc.example", "alice").expect("valid principal")),
        ..collection(Vec::new())
    };
    let owner = luminate_collection_owner(Some(&collection));
    assert_eq!(luminate_owner_identity_kind(owner), LUMINATE_OWNER_KIND_PRINCIPAL);
    assert_eq!(luminate_owner_identity_principal_authority(owner), Some("oidc.example"));
    assert_eq!(luminate_owner_identity_principal_subject(owner), Some("alice"));
    assert_eq!(luminate_owner_identity_sid(owner), None);
}

#[test]
fn collection_list_and_snapshot_expose_their_members() {
    let list = Box::new(LuminateCollectionList(vec![collection(Vec::new()), collection(Vec::new())]));
    assert_eq!(luminate_collection_list_count(Some(&*list)), 2);
    assert!(luminate_collection_list_at(Some(&*list), 0).is_some());
    assert!(luminate_collection_list_at(Some(&*list), 2).is_none());
    luminate_collection_list_free(Some(list));

    let snapshot = Box::new(LuminateCollectionSnapshot(collection(Vec::new())));
    assert!(luminate_collection_snapshot_collection(Some(&*snapshot)).is_some());
    luminate_collection_snapshot_free(Some(snapshot));

    luminate_collection_list_free(None);
    luminate_collection_snapshot_free(None);
}

#[test]
fn null_and_absent_values_return_documented_sentinels() {
    assert_eq!(luminate_collection_list_count(None), 0);
    assert!(luminate_collection_list_at(None, 0).is_none());
    assert!(luminate_collection_snapshot_collection(None).is_none());
    assert_eq!(luminate_collection_id(None), None);
    assert_eq!(luminate_collection_name(None), None);
    assert_eq!(luminate_collection_description(None), None);
    assert!(luminate_collection_owner(None).is_none());
    assert_eq!(luminate_owner_identity_kind(None), LUMINATE_OWNER_KIND_INVALID);
    assert_eq!(luminate_owner_identity_sid(None), None);
    assert_eq!(luminate_collection_kind(None), None);
    assert_eq!(luminate_collection_member_count(None), 0);
    assert!(luminate_collection_member_at(None, 0).is_none());
    assert_eq!(luminate_collection_member_kind(None), u32::MAX);
    assert!(luminate_collection_member_target(None).is_none());
    assert_eq!(luminate_collection_member_collection_id(None), None);

    let mut undescribed = collection_fixture();
    undescribed.description = None;
    undescribed.kind = None;
    assert_eq!(luminate_collection_description(Some(&undescribed)), None);
    assert_eq!(luminate_collection_kind(Some(&undescribed)), None);
}

#[test]
fn member_decoding_covers_both_shapes_and_invalid_combinations() {
    let target_input = LuminateCollectionMemberInput {
        is_collection: false,
        target: LuminateTarget { device_id: Some(b"lamp"), surface_id: None, element_id: None, group_id: None },
        collection_id: None,
    };
    assert_eq!(read_collection_member(&target_input), Ok(CollectionMember::Target(device("lamp"))));

    let nested_input = LuminateCollectionMemberInput { is_collection: true, target: no_target(), collection_id: Some(b"nook") };
    assert_eq!(read_collection_member(&nested_input), Ok(CollectionMember::Collection("nook".to_owned())));

    let missing_collection_id = LuminateCollectionMemberInput { is_collection: true, target: nested_input.target, collection_id: None };
    assert_eq!(read_collection_member(&missing_collection_id), Err(LuminateStatus::NullPointer));

    let missing_device_id = LuminateCollectionMemberInput { is_collection: false, target: no_target(), collection_id: None };
    assert_eq!(read_collection_member(&missing_device_id), Err(LuminateStatus::NullPointer));

    assert_eq!(read_members(None, 0), Ok(Vec::new()));
    assert_eq!(read_members(None, 1), Err(LuminateStatus::NullPointer));
    let inputs = [target_input, nested_input];
    assert_eq!(
        read_members(Some(&inputs), inputs.len()),
        Ok(vec![CollectionMember::Target(device("lamp")), CollectionMember::Collection("nook".to_owned())])
    );
}

#[test]
fn target_decoding_covers_shapes_and_invalid_combinations() {
    let mut target = LuminateTarget { device_id: Some(b"device"), surface_id: None, element_id: None, group_id: None };
    assert_eq!(read_target(Some(&target)), Ok(device("device")));
    target.surface_id = Some(b"surface");
    assert_eq!(
        read_target(Some(&target)),
        Ok(TargetId { device: "device".to_owned(), surface: Some("surface".to_owned()), element: None, group: None })
    );
    target.element_id = Some(b"element");
    assert_eq!(
        read_target(Some(&target)),
        Ok(TargetId {
            device: "device".to_owned(),
            surface: Some("surface".to_owned()),
            element: Some("element".to_owned()),
            group: None
        })
    );
    target.surface_id = None;
    target.element_id = None;
    target.group_id = Some(b"group");
    assert_eq!(
        read_target(Some(&target)),
        Ok(TargetId { device: "device".to_owned(), surface: None, element: None, group: Some("group".to_owned()) })
    );
    target.surface_id = Some(b"surface");
    assert_eq!(read_target(Some(&target)), Err(LuminateStatus::InvalidArgument));
    assert_eq!(read_target(None), Err(LuminateStatus::NullPointer));
}

#[test]
fn collection_requests_validate_before_dispatch() {
    let members = [LuminateCollectionMemberInput { is_collection: true, target: no_target(), collection_id: Some(b"nook") }];
    assert_eq!(
        create_collection_request(false, Some(b"Living Room"), None, None, None, 0, true).err(),
        Some(LuminateStatus::NullPointer)
    );
    assert_eq!(
        create_collection_request(true, Some(b"Living Room"), Some(&[0xff]), None, None, 0, true).err(),
        Some(LuminateStatus::InvalidUtf8)
    );
    assert_eq!(
        create_collection_request(true, Some(b"Living Room"), None, None, None, 1, true).err(),
        Some(LuminateStatus::NullPointer)
    );
    assert_eq!(
        create_collection_request(true, Some(b"Living Room"), None, None, Some(&members), 1, false).err(),
        Some(LuminateStatus::NullPointer)
    );
    let request = create_collection_request(true, Some(b"Living Room"), None, Some(b"location"), Some(&members), 1, true)
        .expect("valid request");
    assert_eq!(request.name, "Living Room");
    assert_eq!(request.description, None);
    assert_eq!(request.kind.as_deref(), Some("location"));
    assert_eq!(request.members, vec![CollectionMember::Collection("nook".to_owned())]);

    assert_eq!(id_request(true, Some(b"living-room"), false).err(), Some(LuminateStatus::NullPointer));
    assert_eq!(id_request(true, None, true).err(), Some(LuminateStatus::NullPointer));
    assert_eq!(id_request(true, Some(b"living-room"), true).expect("id"), "living-room");
    assert_eq!(member_request(true, Some(b"living-room"), None).err(), Some(LuminateStatus::NullPointer));
    let (id, member) = member_request(true, Some(b"living-room"), Some(&members[0])).expect("member");
    assert_eq!(id, "living-room");
    assert_eq!(member, CollectionMember::Collection("nook".to_owned()));

    let mut diagnostics = Diagnostics::new();
    assert_eq!(found_or_not_found(Ok(Some(3)), "collection", "living-room", &mut diagnostics), Ok(3));
    assert!(diagnostics.last.is_none());
    assert_eq!(
        found_or_not_found::<u32>(Ok(None), "collection", "living-room", &mut diagnostics),
        Err(LuminateStatus::NotFound)
    );
    assert!(matches!(&diagnostics.last, Some(LastError::Failure(Error::NotFound(m))) if m == "collection 'living-room'"));
    assert_eq!(
        found_or_not_found::<u32>(Err(Error::DaemonUnavailable), "device", "lamp", &mut diagnostics),
        Err(LuminateStatus::DaemonUnavailable)
    );
    assert!(matches!(&diagnostics.last, Some(LastError::Failure(Error::DaemonUnavailable))));
}

#[test]
fn collections_tests_null_and_absent_values_return_documented_sentinels() {
    assert_eq!(luminate_collection_list_count(None), 0);
    assert!(luminate_collection_list_at(None, 0).is_none());
    assert!(luminate_collection_snapshot_collection(None).is_none());
    assert_eq!(luminate_collection_id(None), None);
    assert_eq!(luminate_collection_name(None), None);
    assert_eq!(luminate_collection_description(None), None);
    assert!(luminate_collection_owner(None).is_none());
    assert_eq!(luminate_owner_identity_kind(None), LUMINATE_OWNER_KIND_INVALID);
    assert_eq!(luminate_owner_identity_sid(None), None);
    assert_eq!(luminate_collection_kind(None), None);
    assert_eq!(luminate_collection_member_count(None), 0);
    assert!(luminate_collection_member_at(None, 0).is_none());
    assert_eq!(luminate_collection_member_kind(None), u32::MAX);
    assert!(luminate_collection_member_target(None).is_none());
    assert_eq!(luminate_collection_member_collection_id(None), None);

    let mut undescribed = collection_fixture();
    undescribed.description = None;
    undescribed.kind = None;
    assert_eq!(luminate_collection_description(Some(&undescribed)), None);
    assert_eq!(luminate_collection_kind(Some(&undescribed)), None);
}

#[test]
fn member_operations_reject_null_member_and_null_client() {
    let name: &[u8] = b"Living Room";
    let id: &[u8] = b"living-room";
    assert_eq!(
        create_collection_request(false, Some(name), None, None, None, 1, true).err(),
        Some(LuminateStatus::NullPointer)
    );
    assert_eq!(member_request(false, Some(id), None).err(), Some(LuminateStatus::NullPointer));
    assert_eq!(member_request(false, Some(id), None).err(), Some(LuminateStatus::NullPointer));
    assert_eq!(id_request(false, Some(id), true), Err(LuminateStatus::NullPointer));
    assert_eq!(list_request(false, true), Err(LuminateStatus::NullPointer));
    assert_eq!(id_request(false, Some(id), true), Err(LuminateStatus::NullPointer));
}

use libluminate::policy::{
    empty_resource_constraints, luminate_authorization_evaluation_free,
    luminate_policy_binding_authority, luminate_policy_binding_group_at,
    luminate_policy_binding_group_count, luminate_policy_binding_role_at,
    luminate_policy_binding_role_count, luminate_policy_binding_subject_at,
    luminate_policy_binding_subject_count, luminate_policy_document_binding_at,
    luminate_policy_document_binding_count, luminate_policy_document_builder_add_binding,
    luminate_policy_document_builder_free, luminate_policy_document_builder_from_document,
    luminate_policy_document_builder_new, luminate_policy_document_builder_remove_binding,
    luminate_policy_document_builder_remove_role, luminate_policy_document_builder_replace_binding,
    luminate_policy_document_builder_role_add_parent, luminate_policy_document_builder_role_add_rule,
    luminate_policy_document_builder_role_remove_parent,
    luminate_policy_document_builder_role_remove_rule,
    luminate_policy_document_builder_role_replace_rule,
    luminate_policy_document_builder_set_revision, luminate_policy_document_free,
    luminate_policy_document_revision, luminate_policy_document_role_at,
    luminate_policy_document_role_count, luminate_policy_document_role_name_at,
    luminate_policy_role_parent_at, luminate_policy_role_parent_count, luminate_policy_role_rule_at,
    luminate_policy_role_rule_count, luminate_policy_rule_cache_hint_ms,
    luminate_policy_rule_collection_at, luminate_policy_rule_collection_count,
    luminate_policy_rule_device_id_at, luminate_policy_rule_device_id_count,
    luminate_policy_rule_effect, luminate_policy_rule_host_attached, luminate_policy_rule_id,
    luminate_policy_rule_operation_at, luminate_policy_rule_operation_count,
    luminate_policy_rule_provider_instance_at, luminate_policy_rule_provider_instance_count,
    luminate_policy_rule_reason, luminate_remote_principal_authority, luminate_remote_principal_free,
    luminate_remote_principal_group_at, luminate_remote_principal_group_count,
    luminate_remote_principal_new, luminate_remote_principal_subject, operation_from_u32,
    operation_to_u32, read_resource_constraints, LuminatePolicyDocument,
    LuminatePolicyDocumentBuilder, LuminateResourceConstraintsInput, LuminateRuleInput,
};
use libluminate::status::LuminateStatus;

#[test]
fn frees_are_null_safe() {
    luminate_policy_document_builder_free(None);
    luminate_policy_document_free(None);
    luminate_remote_principal_free(None);
    luminate_authorization_evaluation_free(None);
}

#[test]
fn empty_constraints_decode_to_no_constraint() {
    let input = empty_resource_constraints();
    assert_eq!(input.device_id_count, 0);
    assert!(input.device_ids.is_none());
    let decoded = read_resource_constraints(&input).expect("empty constraints");
    assert_eq!(decoded.device_ids.len(), 0);
    assert_eq!(decoded.provider_instances.len(), 0);
    assert_eq!(decoded.collections.len(), 0);
    assert_eq!(decoded.host_attached, None);
}

#[test]
fn operation_codes_round_trip() {
    for code in 0..17 {
        let operation = operation_from_u32(code).expect("known code");
        assert_eq!(operation_to_u32(operation), code);
    }
    assert_eq!(operation_from_u32(17).err(), Some(LuminateStatus::InvalidArgument));
}

fn rule<'a>(id: &'a [u8], operations: &'a [u32]) -> LuminateRuleInput<'a> {
    LuminateRuleInput {
        id: Some(id),
        effect: 0,
        operations: Some(operations),
        operation_count: operations.len(),
        resources: empty_resource_constraints(),
        reason: None,
        has_cache_hint_ms: false,
        cache_hint_ms: 0,
    }
}

fn add_allow_rule(builder: &mut LuminatePolicyDocumentBuilder, role: &[u8], id: &[u8], operations: &[u32]) {
    let input = rule(id, operations);
    assert_eq!(
        luminate_policy_document_builder_role_add_rule(Some(builder), Some(role), Some(&input)),
        LuminateStatus::Success
    );
}

fn add_binding(builder: &mut LuminatePolicyDocumentBuilder, authority: &[u8], subjects: &[&[u8]], roles: &[&[u8]]) {
    let subjects: Vec<Option<&[u8]>> = subjects.iter().map(|s| Some(*s)).collect();
    let roles: Vec<Option<&[u8]>> = roles.iter().map(|r| Some(*r)).collect();
    assert_eq!(
        luminate_policy_document_builder_add_binding(
            Some(builder),
            Some(authority),
            Some(&subjects),
            subjects.len(),
            None,
            0,
            Some(&roles),
            roles.len(),
        ),
        LuminateStatus::Success
    );
}

/// A document holding what the builder holds, with the builder handed back
/// seeded from it.
fn document_of(builder: LuminatePolicyDocumentBuilder) -> (LuminatePolicyDocument, LuminatePolicyDocumentBuilder) {
    let document = LuminatePolicyDocument(builder.0);
    let seeded = luminate_policy_document_builder_from_document(Some(&document)).expect("seeded builder");
    (document, seeded)
}

#[test]
fn principal_rejects_empty_authority() {
    let status = luminate_remote_principal_new(Some(b""), Some(b"alice"), None, 0);
    assert_eq!(status.err(), Some(LuminateStatus::InvalidArgument));
}

#[test]
fn seeded_builder_is_independent_and_supports_policy_edits() {
    let mut first_builder = luminate_policy_document_builder_new(12);
    add_allow_rule(&mut first_builder, b"viewer", b"view", &[0]);
    add_allow_rule(&mut first_builder, b"viewer", b"refresh", &[1]);
    add_allow_rule(&mut first_builder, b"unused", b"unused-rule", &[0]);
    assert_eq!(
        luminate_policy_document_builder_role_add_parent(Some(&mut first_builder), Some(b"viewer"), Some(b"base")),
        LuminateStatus::Success
    );
    add_binding(&mut first_builder, b"local", &[b"alice"], &[b"viewer"]);
    add_binding(&mut first_builder, b"local", &[b"nobody"], &[b"unused"]);
    let (first, first_builder) = document_of(first_builder);

    assert_eq!(luminate_policy_document_builder_from_document(None).err(), Some(LuminateStatus::NullPointer));
    let seeded = luminate_policy_document_builder_from_document(Some(&first)).expect("seeded");
    let (round_trip, mut seeded) = document_of(seeded);
    let (r, o) = (Some(&round_trip), Some(&first));
    assert_eq!(luminate_policy_document_revision(r), luminate_policy_document_revision(o));
    assert_eq!(luminate_policy_document_role_count(r), 3);
    assert_eq!(luminate_policy_document_role_count(o), 3);
    assert_eq!(luminate_policy_document_binding_count(r), 2);
    for index in 0..3 {
        assert_eq!(luminate_policy_document_role_name_at(r, index), luminate_policy_document_role_name_at(o, index));
        let (rr, or) = (luminate_policy_document_role_at(r, index), luminate_policy_document_role_at(o, index));
        assert_eq!(luminate_policy_role_rule_count(rr), luminate_policy_role_rule_count(or));
        assert_eq!(luminate_policy_role_parent_count(rr), luminate_policy_role_parent_count(or));
    }
    luminate_policy_document_free(Some(Box::new(round_trip)));
    luminate_policy_document_free(Some(Box::new(first)));
    luminate_policy_document_builder_free(Some(Box::new(first_builder)));

    let replacement = rule(b"control", &[2]);
    let subjects: [Option<&[u8]>; 1] = [Some(b"bob")];
    let roles: [Option<&[u8]>; 1] = [Some(b"viewer")];
    assert_eq!(luminate_policy_document_builder_set_revision(Some(&mut seeded), 13), LuminateStatus::Success);
    assert_eq!(
        luminate_policy_document_builder_role_replace_rule(Some(&mut seeded), Some(b"viewer"), 0, Some(&replacement)),
        LuminateStatus::Success
    );
    assert_eq!(
        luminate_policy_document_builder_role_remove_rule(Some(&mut seeded), Some(b"viewer"), 1),
        LuminateStatus::Success
    );
    assert_eq!(
        luminate_policy_document_builder_role_remove_parent(Some(&mut seeded), Some(b"viewer"), Some(b"base")),
        LuminateStatus::Success
    );
    assert_eq!(luminate_policy_document_builder_remove_role(Some(&mut seeded), Some(b"base")), LuminateStatus::Success);
    assert_eq!(luminate_policy_document_builder_remove_binding(Some(&mut seeded), 1), LuminateStatus::Success);
    assert_eq!(
        luminate_policy_document_builder_replace_binding(
            Some(&mut seeded),
            0,
            Some(b"local"),
            Some(&subjects),
            subjects.len(),
            None,
            0,
            Some(&roles),
            roles.len(),
        ),
        LuminateStatus::Success
    );
    assert_eq!(luminate_policy_document_builder_remove_role(Some(&mut seeded), Some(b"unused")), LuminateStatus::Success);

    let (edited, mut seeded) = document_of(seeded);
    let edited = Some(&edited);
    assert_eq!(luminate_policy_document_revision(edited), 13);
    assert_eq!(luminate_policy_document_role_count(edited), 1);
    assert_eq!(luminate_policy_document_binding_count(edited), 1);
    let role = luminate_policy_document_role_at(edited, 0);
    assert_eq!(luminate_policy_role_rule_count(role), 1);
    assert_eq!(luminate_policy_rule_id(luminate_policy_role_rule_at(role, 0)), Some("control"));

    assert_eq!(luminate_policy_document_builder_remove_binding(Some(&mut seeded), 2), LuminateStatus::InvalidArgument);
    assert_eq!(
        luminate_policy_document_builder_role_remove_rule(Some(&mut seeded), Some(b"viewer"), 2),
        LuminateStatus::InvalidArgument
    );
}

#[test]
fn document_and_principal_accessors_round_trip_every_policy_field() {
    let mut builder = luminate_policy_document_builder_new(3);
    let operations: Vec<u32> = (0..=10).collect();
    let devices: [Option<&[u8]>; 1] = [Some(b"keyboard")];
    let providers: [Option<&[u8]>; 1] = [Some(b"usb")];
    let collections: [Option<&[u8]>; 1] = [Some(b"desk")];
    let input = LuminateRuleInput {
        id: Some(b"restricted-control"),
        effect: 1,
        operations: Some(&operations),
        operation_count: operations.len(),
        resources: LuminateResourceConstraintsInput {
            device_ids: Some(&devices),
            device_id_count: devices.len(),
            provider_instances: Some(&providers),
            provider_instance_count: providers.len(),
            has_host_attached: true,
            host_attached: true,
            collections: Some(&collections),
            collection_count: collections.len(),
        },
        reason: Some(b"maintenance window"),
        has_cache_hint_ms: true,
        cache_hint_ms: 250,
    };
    let subjects: [Option<&[u8]>; 1] = [Some(b"alice")];
    let groups: [Option<&[u8]>; 1] = [Some(b"operators")];
    let roles: [Option<&[u8]>; 1] = [Some(b"operator")];

    assert_eq!(
        luminate_policy_document_builder_role_add_parent(Some(&mut builder), Some(b"operator"), Some(b"base")),
        LuminateStatus::Success
    );
    assert_eq!(
        luminate_policy_document_builder_role_add_rule(Some(&mut builder), Some(b"operator"), Some(&input)),
        LuminateStatus::Success
    );
    assert_eq!(
        luminate_policy_document_builder_add_binding(
            Some(&mut builder),
            Some(b"oidc.example"),
            Some(&subjects),
            subjects.len(),
            Some(&groups),
            groups.len(),
            Some(&roles),
            roles.len(),
        ),
        LuminateStatus::Success
    );
    assert_eq!(luminate_policy_document_builder_set_revision(Some(&mut builder), 9), LuminateStatus::Success);

    let (document, _builder) = document_of(builder);
    let document = Some(&document);
    let role_index = 1;
    assert_eq!(luminate_policy_document_revision(document), 9);
    assert_eq!(luminate_policy_document_role_count(document), 2);
    assert_eq!(luminate_policy_document_role_name_at(document, role_index), Some("operator"));
    let role = luminate_policy_document_role_at(document, role_index);
    assert!(role.is_some());
    assert_eq!(luminate_policy_role_parent_count(role), 1);
    assert_eq!(luminate_policy_role_parent_at(role, 0), Some("base"));
    assert_eq!(luminate_policy_role_rule_count(role), 1);
    let rule = luminate_policy_role_rule_at(role, 0);
    assert!(rule.is_some());
    assert_eq!(luminate_policy_rule_id(rule), Some("restricted-control"));
    assert_eq!(luminate_policy_rule_effect(rule), 1);
    assert_eq!(luminate_policy_rule_operation_count(rule), operations.len());
    for (index, expected) in operations.iter().copied().enumerate() {
        assert_eq!(luminate_policy_rule_operation_at(rule, index), expected);
    }
    assert_eq!(luminate_policy_rule_reason(rule), Some("maintenance window"));
    let mut cache_hint_ms = 0;
    assert!(luminate_policy_rule_cache_hint_ms(rule, Some(&mut cache_hint_ms)));
    assert_eq!(cache_hint_ms, 250);
    assert_eq!(luminate_policy_rule_device_id_count(rule), 1);
    assert_eq!(luminate_policy_rule_device_id_at(rule, 0), Some("keyboard"));
    assert_eq!(luminate_policy_rule_provider_instance_count(rule), 1);
    assert_eq!(luminate_policy_rule_provider_instance_at(rule, 0), Some("usb"));
    assert_eq!(luminate_policy_rule_collection_count(rule), 1);
    assert_eq!(luminate_policy_rule_collection_at(rule, 0), Some("desk"));
    let mut host_attached = false;
    assert!(luminate_policy_rule_host_attached(rule, Some(&mut host_attached)));
    assert!(host_attached);

    assert_eq!(luminate_policy_document_binding_count(document), 1);
    let binding = luminate_policy_document_binding_at(document, 0);
    assert!(binding.is_some());
    assert_eq!(luminate_policy_binding_authority(binding), Some("oidc.example"));
    assert_eq!(luminate_policy_binding_subject_count(binding), 1);
    assert_eq!(luminate_policy_binding_subject_at(binding, 0), Some("alice"));
    assert_eq!(luminate_policy_binding_group_count(binding), 1);
    assert_eq!(luminate_policy_binding_group_at(binding, 0), Some("operators"));
    assert_eq!(luminate_policy_binding_role_count(binding), 1);
    assert_eq!(luminate_policy_binding_role_at(binding, 0), Some("operator"));

    let group_args: [Option<&[u8]>; 2] = [Some(b"operators"), Some(b"admins")];
    let principal = luminate_remote_principal_new(Some(b"oidc.example"), Some(b"alice"), Some(&group_args), 2)
        .expect("valid principal");
    let p = Some(&principal);
    assert_eq!(luminate_remote_principal_authority(p), Some("oidc.example"));
    assert_eq!(luminate_remote_principal_subject(p), Some("alice"));
    assert_eq!(luminate_remote_principal_group_count(p), 2);
    assert_eq!(luminate_remote_principal_group_at(p, 0), Some("admins"));
    assert_eq!(luminate_remote_principal_group_at(p, 1), Some("operators"));
    luminate_remote_principal_free(Some(Box::new(principal)));
}

#[test]
fn policy_inputs_and_out_of_range_accessors_fail_safely() {
    let mut builder = luminate_policy_document_builder_new(1);
    let invalid_rule = LuminateRuleInput {
        id: Some(b""),
        effect: 0,
        operations: None,
        operation_count: 0,
        resources: empty_resource_constraints(),
        reason: None,
        has_cache_hint_ms: false,
        cache_hint_ms: 0,
    };

    assert_eq!(luminate_policy_document_builder_set_revision(None, 2), LuminateStatus::NullPointer);
    assert_eq!(
        luminate_policy_document_builder_role_add_parent(Some(&mut builder), None, Some(b"role")),
        LuminateStatus::NullPointer
    );
    assert_eq!(
        luminate_policy_document_builder_role_add_rule(Some(&mut builder), Some(b"role"), None),
        LuminateStatus::NullPointer
    );
    assert_eq!(
        luminate_policy_document_builder_role_add_rule(Some(&mut builder), Some(b"role"), Some(&invalid_rule)),
        LuminateStatus::InvalidArgument
    );
    let invalid_operations = [u32::MAX];
    let bad_operation_rule = rule(b"role", &invalid_operations);
    assert_eq!(
        luminate_policy_document_builder_role_add_rule(Some(&mut builder), Some(b"role"), Some(&bad_operation_rule)),
        LuminateStatus::InvalidArgument
    );

    let (document, _builder) = document_of(builder);
    let document = Some(&document);
    assert_eq!(luminate_policy_document_role_count(None), 0);
    assert!(luminate_policy_document_role_name_at(document, 99).is_none());
    assert!(luminate_policy_document_role_at(document, 99).is_none());
    assert_eq!(luminate_policy_rule_effect(None), u32::MAX);
    assert_eq!(luminate_policy_rule_operation_at(None, 99), u32::MAX);
    let mut host_attached = true;
    assert!(!luminate_policy_rule_host_attached(None, Some(&mut host_attached)));
    assert!(host_attached);
    assert!(luminate_policy_document_binding_at(document, 99).is_none());
    assert!(luminate_policy_binding_authority(None).is_none());
}

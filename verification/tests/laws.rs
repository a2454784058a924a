use libluminate::access::{luminate_token_expires_at_unix_ms, principal, LuminateToken};
use libluminate::colour::{read_colour, Colour, LuminateColourChannelInput, LuminateColourInput};
use libluminate::effects::{direction_to_u32, effect_direction};
use libluminate::management::{
    luminate_setting_value_new_integer, luminate_setting_value_new_table,
    luminate_setting_value_table_insert, luminate_setting_value_view_count,
    luminate_setting_value_view_integer, luminate_setting_value_view_table_key_at,
    luminate_setting_value_view_table_value_at,
};
use libluminate::policy::{
    empty_resource_constraints, luminate_policy_document_builder_add_binding,
    luminate_policy_document_builder_new, luminate_policy_document_builder_remove_binding,
    luminate_policy_document_builder_role_add_parent, luminate_policy_document_builder_role_add_rule,
    luminate_policy_document_builder_role_remove_parent,
    luminate_policy_document_builder_role_remove_rule, luminate_policy_document_binding_count,
    luminate_policy_document_role_at, luminate_policy_document_role_count,
    luminate_policy_role_parent_count, luminate_policy_role_rule_at, luminate_policy_role_rule_count,
    luminate_policy_rule_cache_hint_ms, luminate_policy_rule_host_attached, luminate_policy_rule_id,
    read_rule_input, rule_effect_from_u32, rule_effect_to_u32, LuminatePolicyDocument,
    LuminatePolicyDocumentBuilder, LuminateRuleInput,
};
use libluminate::status::{Diagnostics, LuminateStatus};

fn rule<'a>(id: &'a [u8], operations: &'a [u32]) -> LuminateRuleInput<'a> {
    LuminateRuleInput {
        id: Some(id),
        effect: 0,
        operations: Some(operations),
        operation_count: operations.len(),
        resources: empty_resource_constraints(),
        reason: None,
        has_cache_hint_ms: false,
        cache_hint_ms: 0,
    }
}

fn seeded() -> LuminatePolicyDocumentBuilder {
    let mut builder = luminate_policy_document_builder_new(4);
    let view = rule(b"view", &[0]);
    assert_eq!(
        luminate_policy_document_builder_role_add_rule(Some(&mut builder), Some(b"viewer"), Some(&view)),
        LuminateStatus::Success
    );
    assert_eq!(
        luminate_policy_document_builder_role_add_parent(Some(&mut builder), Some(b"base"), Some(b"viewer")),
        LuminateStatus::Success
    );
    builder
}

#[test]
fn removing_a_just_added_rule_restores_the_role() {
    let mut builder = seeded();
    let control = rule(b"control", &[2]);
    assert_eq!(
        luminate_policy_document_builder_role_add_rule(Some(&mut builder), Some(b"viewer"), Some(&control)),
        LuminateStatus::Success
    );
    assert_eq!(
        luminate_policy_document_builder_role_remove_rule(Some(&mut builder), Some(b"viewer"), 1),
        LuminateStatus::Success
    );
    let document = LuminatePolicyDocument(builder.0);
    let d = Some(&document);
    assert_eq!(luminate_policy_document_role_count(d), 2);
    let viewer = luminate_policy_document_role_at(d, 1);
    assert_eq!(luminate_policy_role_rule_count(viewer), 1);
    assert_eq!(luminate_policy_rule_id(luminate_policy_role_rule_at(viewer, 0)), Some("view"));
}

#[test]
fn removing_a_just_added_parent_restores_the_role() {
    let mut builder = seeded();
    assert_eq!(
        luminate_policy_document_builder_role_add_parent(Some(&mut builder), Some(b"viewer"), Some(b"base")),
        LuminateStatus::Success
    );
    assert_eq!(
        luminate_policy_document_builder_role_remove_parent(Some(&mut builder), Some(b"viewer"), Some(b"base")),
        LuminateStatus::Success
    );
    let document = LuminatePolicyDocument(builder.0);
    let d = Some(&document);
    assert_eq!(luminate_policy_document_role_count(d), 2);
    assert_eq!(luminate_policy_role_parent_count(luminate_policy_document_role_at(d, 1)), 0);
    assert_eq!(luminate_policy_role_parent_count(luminate_policy_document_role_at(d, 0)), 1);
}

#[test]
fn removing_a_just_added_binding_restores_the_bindings() {
    let mut builder = seeded();
    let subjects: [Option<&[u8]>; 1] = [Some(b"alice")];
    let roles: [Option<&[u8]>; 1] = [Some(b"viewer")];
    assert_eq!(
        luminate_policy_document_builder_add_binding(Some(&mut builder), Some(b"local"), Some(&subjects), 1, None, 0, Some(&roles), 1),
        LuminateStatus::Success
    );
    assert_eq!(luminate_policy_document_builder_remove_binding(Some(&mut builder), 0), LuminateStatus::Success);
    let document = LuminatePolicyDocument(builder.0);
    assert_eq!(luminate_policy_document_binding_count(Some(&document)), 0);
}

#[test]
fn the_last_insert_under_a_key_wins() {
    let mut table = None;
    assert_eq!(luminate_setting_value_new_table(Some(&mut table)), LuminateStatus::Success);
    let mut table = table.expect("table");
    let mut first = None;
    let mut second = None;
    assert_eq!(luminate_setting_value_new_integer(1, Some(&mut first)), LuminateStatus::Success);
    assert_eq!(luminate_setting_value_new_integer(2, Some(&mut second)), LuminateStatus::Success);
    assert_eq!(
        luminate_setting_value_table_insert(Some(&mut table), Some(b"speed"), first.as_ref()),
        LuminateStatus::Success
    );
    assert_eq!(
        luminate_setting_value_table_insert(Some(&mut table), Some(b"speed"), second.as_ref()),
        LuminateStatus::Success
    );
    let view = Some(&table.0);
    assert_eq!(luminate_setting_value_view_count(view), 1);
    assert_eq!(luminate_setting_value_view_table_key_at(view, 0), Some("speed"));
    assert_eq!(luminate_setting_value_view_integer(luminate_setting_value_view_table_value_at(view, 0)), 2);
}

#[test]
fn direction_and_rule_effect_codes_round_trip() {
    for code in 0..=6 {
        let direction = effect_direction(code).expect("known direction");
        assert_eq!(direction_to_u32(direction), code);
    }
    assert_eq!(effect_direction(7).err(), Some(LuminateStatus::InvalidArgument));
    for code in 0..=1 {
        let effect = rule_effect_from_u32(code).expect("known effect");
        assert_eq!(rule_effect_to_u32(effect), code);
    }
    assert_eq!(rule_effect_from_u32(2).err(), Some(LuminateStatus::InvalidArgument));
}

#[test]
fn outputs_are_left_untouched_when_nothing_is_written() {
    let token = LuminateToken { id: "revoked".to_owned(), subject: principal(), expires_at: None, revoked: true };
    let mut expires_at = 1_234;
    assert!(!luminate_token_expires_at_unix_ms(Some(&token), Some(&mut expires_at)));
    assert_eq!(expires_at, 1_234);
    assert!(!luminate_token_expires_at_unix_ms(None, Some(&mut expires_at)));
    assert_eq!(expires_at, 1_234);

    let rule = read_rule_input(&rule(b"view", &[0])).expect("valid rule");
    let mut hint = 77;
    let mut host_attached = true;
    assert!(!luminate_policy_rule_cache_hint_ms(Some(&rule), Some(&mut hint)));
    assert!(!luminate_policy_rule_host_attached(Some(&rule), Some(&mut host_attached)));
    assert_eq!(hint, 77);
    assert!(host_attached);
}

fn channel(channel: u32, value: u32) -> LuminateColourChannelInput {
    LuminateColourChannelInput { channel, value }
}

#[test]
fn only_the_first_value_of_each_required_channel_counts() {
    let plain = [channel(8, 120), channel(9, 80), channel(10, 70)];
    let shuffled = [channel(0, 5), channel(10, 70), channel(8, 120), channel(10, 1), channel(9, 80), channel(8, 3)];
    let a = read_colour(&LuminateColourInput { encoding: 1, channels: Some(&plain), channel_count: plain.len() }, &mut Diagnostics::new());
    let b = read_colour(&LuminateColourInput { encoding: 1, channels: Some(&shuffled), channel_count: shuffled.len() }, &mut Diagnostics::new());
    assert_eq!(a, Ok(Colour::Hsv { hue: 120, saturation: 80, value: 70 }));
    assert_eq!(a, b);
    let cct = [channel(13, 9), channel(12, 4_000), channel(12, 6_500)];
    assert_eq!(
        read_colour(&LuminateColourInput { encoding: 3, channels: Some(&cct), channel_count: cct.len() }, &mut Diagnostics::new()),
        Ok(Colour::Cct(4_000))
    );
}

use libluminate::canonical::TextMap;
use libluminate::management::{
    finish_changes, finish_snapshot, luminate_daemon_preferences_cct_emulation,
    luminate_daemon_preferences_default_unsupported_policy,
    luminate_daemon_preferences_device_reconciliation_at,
    luminate_daemon_preferences_device_reconciliation_count,
    luminate_daemon_preferences_has_cct_emulation,
    luminate_daemon_preferences_has_default_unsupported_policy,
    luminate_daemon_preferences_has_prefer_client_shm, luminate_daemon_preferences_has_prefer_shm,
    luminate_daemon_preferences_has_reconciliation_policy,
    luminate_daemon_preferences_prefer_client_shm, luminate_daemon_preferences_prefer_shm,
    luminate_daemon_preferences_reconciliation_policy,
    luminate_device_reconciliation_preference_device_id,
    luminate_device_reconciliation_preference_policy, luminate_managed_plugin_activation_locked,
    luminate_managed_plugin_desired_enabled, luminate_managed_plugin_desired_reconciliation,
    luminate_managed_plugin_desired_setting_count, luminate_managed_plugin_desired_setting_key_at,
    luminate_managed_plugin_desired_setting_value_at, luminate_managed_plugin_effective_enabled,
    luminate_managed_plugin_effective_reconciliation,
    luminate_managed_plugin_effective_setting_count,
    luminate_managed_plugin_effective_setting_key_at,
    luminate_managed_plugin_effective_setting_value_at,
    luminate_managed_plugin_has_desired_enabled, luminate_managed_plugin_has_desired_reconciliation,
    luminate_managed_plugin_has_effective_reconciliation, luminate_managed_plugin_locked_setting_at,
    luminate_managed_plugin_locked_setting_count, luminate_managed_plugin_name,
    luminate_managed_plugin_required, luminate_managed_plugin_runtime_diagnostic,
    luminate_managed_plugin_runtime_kind, luminate_managed_plugin_schema_at,
    luminate_managed_plugin_schema_count, luminate_managed_plugin_version,
    luminate_management_change_key_at, luminate_management_change_key_count,
    luminate_management_change_kind, luminate_management_change_plugin,
    luminate_management_change_set_at, luminate_management_change_set_count,
    luminate_management_change_set_free, luminate_management_change_set_revision,
    luminate_management_change_set_view_at, luminate_management_change_set_view_count,
    luminate_management_change_set_view_revision, luminate_management_change_setting_sensitive,
    luminate_management_patch_builder_clear_plugin_setting, luminate_management_patch_builder_free,
    luminate_management_patch_builder_new, luminate_management_patch_builder_set_daemon_preferences,
    luminate_management_patch_builder_set_expected_revision,
    luminate_management_patch_builder_set_plugin_enabled,
    luminate_management_patch_builder_set_plugin_reconciliation,
    luminate_management_patch_builder_set_plugin_setting, luminate_management_snapshot_desired_daemon,
    luminate_management_snapshot_effective_daemon, luminate_management_snapshot_free,
    luminate_management_snapshot_locked_daemon_setting_at,
    luminate_management_snapshot_locked_daemon_setting_count,
    luminate_management_snapshot_plugin_at, luminate_management_snapshot_plugin_count,
    luminate_management_snapshot_revision, luminate_plugin_setting_schema_constraints,
    luminate_plugin_setting_schema_default, luminate_plugin_setting_schema_description,
    luminate_plugin_setting_schema_has_maximum, luminate_plugin_setting_schema_has_minimum,
    luminate_plugin_setting_schema_key, luminate_plugin_setting_schema_kind,
    luminate_plugin_setting_schema_label, luminate_plugin_setting_schema_maximum,
    luminate_plugin_setting_schema_minimum, luminate_plugin_setting_schema_required,
    luminate_plugin_setting_schema_restart_required, luminate_plugin_setting_schema_sensitive,
    luminate_reported_setting_value_kind, luminate_reported_setting_value_visible,
    luminate_setting_value_array_push, luminate_setting_value_free,
    luminate_setting_value_new_array, luminate_setting_value_new_boolean,
    luminate_setting_value_new_integer, luminate_setting_value_new_number,
    luminate_setting_value_new_string, luminate_setting_value_new_table,
    luminate_setting_value_table_insert, luminate_setting_value_view_array_at,
    luminate_setting_value_view_boolean, luminate_setting_value_view_clone,
    luminate_setting_value_view_count, luminate_setting_value_view_integer,
    luminate_setting_value_view_kind, luminate_setting_value_view_number,
    luminate_setting_value_view_string, luminate_setting_value_view_table_key_at,
    luminate_setting_value_view_table_value_at, map_entry_at, plugin, preferences,
    preferences_input, preferences_ptr, read_optional_bool, reconciliation, schemas,
    CctEmulation, DaemonPreferences, LuminateDaemonPreferencesInput,
    LuminateDeviceReconciliationPreferenceInput, LuminateManagementChangeSet,
    LuminateManagementSnapshot, LuminateSettingValue, ManagementChange, ManagementChangeSet,
    ManagementMutation, ManagementSnapshot, PluginRuntimeState, ReconciliationPolicy,
    ReportedSettingValue, SettingValue, UnsupportedPolicy, LUMINATE_CCT_EMULATION_AUTO,
    LUMINATE_CCT_EMULATION_DISABLED, LUMINATE_MANAGEMENT_SETTING_ARRAY,
    LUMINATE_MANAGEMENT_SETTING_BOOLEAN, LUMINATE_MANAGEMENT_SETTING_INTEGER,
    LUMINATE_MANAGEMENT_SETTING_NUMBER, LUMINATE_MANAGEMENT_SETTING_STRING,
    LUMINATE_MANAGEMENT_SETTING_TABLE, LUMINATE_PLUGIN_RUNTIME_FAILED,
    LUMINATE_RECONCILIATION_POLICY_ADOPT, LUMINATE_RECONCILIATION_POLICY_LEAVE,
    LUMINATE_RECONCILIATION_POLICY_RESTORE, LUMINATE_UNSUPPORTED_POLICY_REJECT,
};
use libluminate::status::{Diagnostics, Error, LastError, LuminateStatus};

fn number(value: f64) -> SettingValue {
    SettingValue::Number(value.to_bits())
}

fn table(entries: Vec<(&str, SettingValue)>) -> SettingValue {
    let mut map = TextMap::new();
    for (key, value) in entries {
        map.insert(key.to_owned(), value);
    }
    SettingValue::Table(map)
}

fn reported_map(entries: Vec<(&str, ReportedSettingValue)>) -> TextMap<ReportedSettingValue> {
    let mut map = TextMap::new();
    for (key, value) in entries {
        map.insert(key.to_owned(), value);
    }
    map
}

#[test]
fn patch_builder_covers_valid_mutations_and_validation_failures() {
    let mut builder = None;
    assert_eq!(luminate_management_patch_builder_new(3, Some(&mut builder)), LuminateStatus::Success);
    assert!(builder.is_some());
    assert_eq!(
        luminate_management_patch_builder_set_expected_revision(builder.as_mut(), 9),
        LuminateStatus::Success
    );

    let devices = [
        LuminateDeviceReconciliationPreferenceInput {
            device_id: Some(b"keyboard"),
            policy: LUMINATE_RECONCILIATION_POLICY_ADOPT,
        },
        LuminateDeviceReconciliationPreferenceInput {
            device_id: Some(b"desk"),
            policy: LUMINATE_RECONCILIATION_POLICY_LEAVE,
        },
    ];
    let input = LuminateDaemonPreferencesInput {
        has_default_unsupported_policy: true,
        default_unsupported_policy: LUMINATE_UNSUPPORTED_POLICY_REJECT,
        has_reconciliation_policy: true,
        reconciliation_policy: LUMINATE_RECONCILIATION_POLICY_RESTORE,
        device_reconciliation: Some(&devices),
        device_reconciliation_count: devices.len(),
        has_cct_emulation: true,
        cct_emulation: LUMINATE_CCT_EMULATION_DISABLED,
        has_prefer_shm: true,
        prefer_shm: true,
        has_prefer_client_shm: true,
        prefer_client_shm: false,
    };
    assert_eq!(
        luminate_management_patch_builder_set_daemon_preferences(builder.as_mut(), Some(&input)),
        LuminateStatus::Success
    );
    assert_eq!(
        luminate_management_patch_builder_set_plugin_enabled(builder.as_mut(), Some(b"example"), true, false),
        LuminateStatus::Success
    );
    assert_eq!(
        luminate_management_patch_builder_set_plugin_enabled(builder.as_mut(), Some(b"example"), false, true),
        LuminateStatus::Success
    );
    assert_eq!(
        luminate_management_patch_builder_set_plugin_reconciliation(
            builder.as_mut(),
            Some(b"example"),
            true,
            LUMINATE_RECONCILIATION_POLICY_ADOPT,
        ),
        LuminateStatus::Success
    );
    assert_eq!(
        luminate_management_patch_builder_set_plugin_reconciliation(builder.as_mut(), Some(b"example"), false, u32::MAX),
        LuminateStatus::Success
    );

    let value = LuminateSettingValue(SettingValue::String("token".to_owned()));
    assert_eq!(
        luminate_management_patch_builder_set_plugin_setting(
            builder.as_mut(),
            Some(b"example"),
            Some(b"credentials.token"),
            Some(&value),
        ),
        LuminateStatus::Success
    );
    assert_eq!(
        luminate_management_patch_builder_clear_plugin_setting(
            builder.as_mut(),
            Some(b"example"),
            Some(b"credentials.token"),
        ),
        LuminateStatus::Success
    );
    let built = builder.as_ref().expect("builder");
    assert_eq!(built.0.expected_revision, 9);
    assert_eq!(built.0.mutations.len(), 7);

    assert_eq!(
        luminate_management_patch_builder_set_expected_revision(None, 1),
        LuminateStatus::NullPointer
    );
    assert_eq!(
        luminate_management_patch_builder_set_daemon_preferences(builder.as_mut(), None),
        LuminateStatus::NullPointer
    );
    let invalid_input = LuminateDaemonPreferencesInput { default_unsupported_policy: u32::MAX, ..input };
    assert_eq!(
        luminate_management_patch_builder_set_daemon_preferences(builder.as_mut(), Some(&invalid_input)),
        LuminateStatus::InvalidArgument
    );
    let null_devices = LuminateDaemonPreferencesInput {
        device_reconciliation: None,
        device_reconciliation_count: 1,
        ..input
    };
    assert_eq!(
        luminate_management_patch_builder_set_daemon_preferences(builder.as_mut(), Some(&null_devices)),
        LuminateStatus::NullPointer
    );
    assert_eq!(
        luminate_management_patch_builder_set_plugin_reconciliation(builder.as_mut(), Some(b"example"), true, u32::MAX),
        LuminateStatus::InvalidArgument
    );
    assert_eq!(
        luminate_management_patch_builder_set_plugin_setting(builder.as_mut(), Some(b"example"), Some(b"key"), None),
        LuminateStatus::NullPointer
    );
    assert_eq!(builder.as_ref().expect("builder").0.mutations.len(), 7);
    luminate_management_patch_builder_free(builder.map(Box::new));
    luminate_management_patch_builder_free(None);
}

#[test]
fn owned_setting_values_build_nested_arrays_and_tables() {
    let mut boolean = None;
    let mut integer = None;
    let mut num = None;
    let mut string = None;
    let mut array = None;
    let mut tbl = None;
    assert_eq!(luminate_setting_value_new_boolean(true, Some(&mut boolean)), LuminateStatus::Success);
    assert_eq!(luminate_setting_value_new_integer(-4, Some(&mut integer)), LuminateStatus::Success);
    assert_eq!(luminate_setting_value_new_number(2.5_f64.to_bits(), Some(&mut num)), LuminateStatus::Success);
    assert_eq!(luminate_setting_value_new_string(Some(b"hello"), Some(&mut string)), LuminateStatus::Success);
    assert_eq!(luminate_setting_value_new_array(Some(&mut array)), LuminateStatus::Success);
    assert_eq!(luminate_setting_value_new_table(Some(&mut tbl)), LuminateStatus::Success);
    assert_eq!(luminate_setting_value_array_push(array.as_mut(), boolean.as_ref()), LuminateStatus::Success);
    assert_eq!(luminate_setting_value_array_push(array.as_mut(), integer.as_ref()), LuminateStatus::Success);
    assert_eq!(
        luminate_setting_value_table_insert(tbl.as_mut(), Some(b"items"), array.as_ref()),
        LuminateStatus::Success
    );

    assert!(matches!(boolean.as_ref().unwrap().0, SettingValue::Boolean(true)));
    assert!(matches!(integer.as_ref().unwrap().0, SettingValue::Integer(-4)));
    assert!(matches!(num.as_ref().unwrap().0, SettingValue::Number(bits) if f64::from_bits(bits) == 2.5));
    assert!(matches!(&string.as_ref().unwrap().0, SettingValue::String(value) if value == "hello"));
    assert!(matches!(&array.as_ref().unwrap().0, SettingValue::Array(values) if values.len() == 2));
    assert!(matches!(&tbl.as_ref().unwrap().0, SettingValue::Table(values) if values.len() == 1));

    assert_eq!(
        luminate_setting_value_new_number(f64::INFINITY.to_bits(), Some(&mut num)),
        LuminateStatus::InvalidArgument
    );
    assert_eq!(luminate_setting_value_array_push(None, boolean.as_ref()), LuminateStatus::NullPointer);
    assert_eq!(
        luminate_setting_value_array_push(boolean.as_mut(), integer.as_ref()),
        LuminateStatus::InvalidArgument
    );
    assert_eq!(
        luminate_setting_value_table_insert(boolean.as_mut(), Some(b"x"), integer.as_ref()),
        LuminateStatus::InvalidArgument
    );
    assert_eq!(
        luminate_setting_value_table_insert(tbl.as_mut(), Some(b"x"), None),
        LuminateStatus::NullPointer
    );

    for value in [boolean, integer, num, string, array, tbl] {
        luminate_setting_value_free(value.map(Box::new));
    }
}

#[test]
fn snapshot_preferences_and_plugin_accessors_cover_nested_views() {
    let snapshot = LuminateManagementSnapshot(ManagementSnapshot {
        revision: 42,
        desired_daemon: preferences(),
        effective_daemon: DaemonPreferences {
            default_unsupported_policy: Some(UnsupportedPolicy::Skip),
            reconciliation_policy: Some(ReconciliationPolicy::Leave),
            device_reconciliation: Vec::new(),
            cct_emulation: Some(CctEmulation::Auto),
            prefer_shm: None,
            prefer_client_shm: None,
        },
        locked_daemon_settings: vec!["prefer-shm".to_owned()],
        plugins: vec![plugin(PluginRuntimeState::Failed { diagnostic: "boom".to_owned() })],
    });
    let s = Some(&snapshot);
    assert_eq!(luminate_management_snapshot_revision(s), 42);
    assert_eq!(luminate_management_snapshot_locked_daemon_setting_count(s), 1);
    assert_eq!(luminate_management_snapshot_locked_daemon_setting_at(s, 0), Some("prefer-shm"));
    assert!(luminate_management_snapshot_locked_daemon_setting_at(s, 1).is_none());
    assert_eq!(luminate_management_snapshot_plugin_count(s), 1);
    assert!(luminate_management_snapshot_plugin_at(s, 1).is_none());

    let desired = luminate_management_snapshot_desired_daemon(s);
    assert!(luminate_daemon_preferences_has_default_unsupported_policy(desired));
    assert_eq!(
        luminate_daemon_preferences_default_unsupported_policy(desired),
        LUMINATE_UNSUPPORTED_POLICY_REJECT
    );
    assert!(luminate_daemon_preferences_has_reconciliation_policy(desired));
    assert_eq!(
        luminate_daemon_preferences_reconciliation_policy(desired),
        LUMINATE_RECONCILIATION_POLICY_ADOPT
    );
    assert!(luminate_daemon_preferences_has_cct_emulation(desired));
    assert_eq!(luminate_daemon_preferences_cct_emulation(desired), LUMINATE_CCT_EMULATION_DISABLED);
    assert!(luminate_daemon_preferences_has_prefer_shm(desired));
    assert!(luminate_daemon_preferences_prefer_shm(desired));
    assert!(luminate_daemon_preferences_has_prefer_client_shm(desired));
    assert!(!luminate_daemon_preferences_prefer_client_shm(desired));
    assert_eq!(luminate_daemon_preferences_device_reconciliation_count(desired), 2);
    let device = luminate_daemon_preferences_device_reconciliation_at(desired, 1);
    assert_eq!(luminate_device_reconciliation_preference_device_id(device), Some("desk"));
    assert_eq!(luminate_device_reconciliation_preference_policy(device), LUMINATE_RECONCILIATION_POLICY_LEAVE);

    let effective = luminate_management_snapshot_effective_daemon(s);
    assert_eq!(luminate_daemon_preferences_cct_emulation(effective), LUMINATE_CCT_EMULATION_AUTO);
    assert!(!luminate_daemon_preferences_has_prefer_shm(effective));
    assert!(!luminate_daemon_preferences_prefer_shm(effective));

    let plugin = luminate_management_snapshot_plugin_at(s, 0);
    assert_eq!(luminate_managed_plugin_name(plugin), Some("example"));
    assert_eq!(luminate_managed_plugin_version(plugin), Some("1.2.3"));
    assert!(luminate_managed_plugin_required(plugin));
    assert!(luminate_managed_plugin_has_desired_enabled(plugin));
    assert!(!luminate_managed_plugin_desired_enabled(plugin));
    assert!(luminate_managed_plugin_effective_enabled(plugin));
    assert!(luminate_managed_plugin_activation_locked(plugin));
    assert!(luminate_managed_plugin_has_desired_reconciliation(plugin));
    assert_eq!(luminate_managed_plugin_desired_reconciliation(plugin), LUMINATE_RECONCILIATION_POLICY_LEAVE);
    assert!(luminate_managed_plugin_has_effective_reconciliation(plugin));
    assert_eq!(
        luminate_managed_plugin_effective_reconciliation(plugin),
        LUMINATE_RECONCILIATION_POLICY_RESTORE
    );
    assert_eq!(luminate_managed_plugin_runtime_kind(plugin), LUMINATE_PLUGIN_RUNTIME_FAILED);
    assert_eq!(luminate_managed_plugin_runtime_diagnostic(plugin), Some("boom"));
    assert_eq!(luminate_managed_plugin_schema_count(plugin), 6);
    assert_eq!(luminate_managed_plugin_desired_setting_count(plugin), 2);
    assert_eq!(luminate_managed_plugin_desired_setting_key_at(plugin, 0), Some("a"));
    assert!(luminate_managed_plugin_desired_setting_value_at(plugin, 1).is_some());
    assert_eq!(luminate_managed_plugin_effective_setting_count(plugin), 1);
    assert_eq!(luminate_managed_plugin_effective_setting_key_at(plugin, 0), Some("secret"));
    assert!(luminate_managed_plugin_effective_setting_value_at(plugin, 0).is_some());
    assert_eq!(luminate_managed_plugin_locked_setting_count(plugin), 1);
    assert_eq!(luminate_managed_plugin_locked_setting_at(plugin, 0), Some("secret"));
}

#[test]
fn schema_reported_and_recursive_setting_accessors_cover_every_variant() {
    let plugin = plugin(PluginRuntimeState::Loaded);
    let p = Some(&plugin);
    for (index, expected_kind) in (0_u32..).enumerate().take(6) {
        let schema = luminate_managed_plugin_schema_at(p, index);
        assert!(schema.is_some());
        assert_eq!(luminate_plugin_setting_schema_kind(schema), expected_kind);
        assert!(luminate_plugin_setting_schema_key(schema).is_some());
        assert!(luminate_plugin_setting_schema_label(schema).is_some());
        assert!(luminate_plugin_setting_schema_description(schema).is_some());
        assert!(luminate_plugin_setting_schema_default(schema).is_some());
        assert!(luminate_plugin_setting_schema_constraints(schema).is_some());
        assert!(luminate_plugin_setting_schema_restart_required(schema));
    }
    let numeric = luminate_managed_plugin_schema_at(p, 2);
    assert!(luminate_plugin_setting_schema_sensitive(numeric));
    assert!(luminate_plugin_setting_schema_has_minimum(numeric));
    assert!((f64::from_bits(luminate_plugin_setting_schema_minimum(numeric)) - 1.5).abs() <= f64::EPSILON);
    assert!(luminate_plugin_setting_schema_has_maximum(numeric));
    assert!((f64::from_bits(luminate_plugin_setting_schema_maximum(numeric)) - 9.5).abs() <= f64::EPSILON);
    let required = luminate_managed_plugin_schema_at(p, 1);
    assert!(luminate_plugin_setting_schema_required(required));

    let values = [
        ReportedSettingValue::Unset,
        ReportedSettingValue::Visible(SettingValue::Boolean(true)),
        ReportedSettingValue::Redacted,
    ];
    for (value, expected) in values.iter().zip(0_u32..) {
        assert_eq!(luminate_reported_setting_value_kind(Some(value)), expected);
    }
    assert!(luminate_reported_setting_value_visible(Some(&values[1])).is_some());
    assert!(luminate_reported_setting_value_visible(Some(&values[0])).is_none());

    let setting = table(vec![
        ("array", SettingValue::Array(vec![SettingValue::Integer(7)])),
        ("boolean", SettingValue::Boolean(true)),
        ("number", number(2.5)),
        ("string", SettingValue::String("hello".to_owned())),
    ]);
    assert_eq!(luminate_setting_value_view_kind(Some(&setting)), LUMINATE_MANAGEMENT_SETTING_TABLE);
    assert_eq!(luminate_setting_value_view_count(Some(&setting)), 4);
    assert!(luminate_setting_value_view_table_key_at(Some(&setting), 0).is_some());
    assert!(luminate_setting_value_view_table_value_at(Some(&setting), 0).is_some());

    let array = SettingValue::Array(vec![SettingValue::Integer(7)]);
    assert_eq!(luminate_setting_value_view_kind(Some(&array)), LUMINATE_MANAGEMENT_SETTING_ARRAY);
    assert_eq!(luminate_setting_value_view_count(Some(&array)), 1);
    assert!(luminate_setting_value_view_array_at(Some(&array), 0).is_some());
    assert!(luminate_setting_value_view_array_at(Some(&array), 1).is_none());

    for (value, expected_kind) in [
        (SettingValue::Boolean(true), LUMINATE_MANAGEMENT_SETTING_BOOLEAN),
        (SettingValue::Integer(7), LUMINATE_MANAGEMENT_SETTING_INTEGER),
        (number(2.5), LUMINATE_MANAGEMENT_SETTING_NUMBER),
        (SettingValue::String("hello".to_owned()), LUMINATE_MANAGEMENT_SETTING_STRING),
    ] {
        let v = Some(&value);
        assert_eq!(luminate_setting_value_view_kind(v), expected_kind);
        match value {
            SettingValue::Boolean(_) => assert!(luminate_setting_value_view_boolean(v)),
            SettingValue::Integer(_) => assert_eq!(luminate_setting_value_view_integer(v), 7),
            SettingValue::Number(_) => {
                assert!((f64::from_bits(luminate_setting_value_view_number(v)) - 2.5).abs() <= f64::EPSILON);
            },
            SettingValue::String(_) => assert_eq!(luminate_setting_value_view_string(v), Some("hello")),
            _ => unreachable!("scalar cases only"),
        }
    }
}

#[test]
fn visible_setting_values_clone_recursively_and_independently() {
    for source in [
        SettingValue::Boolean(true),
        SettingValue::Integer(-42),
        number(1.25),
        SettingValue::String("scalar".to_owned()),
        SettingValue::Array(Vec::new()),
        SettingValue::Table(TextMap::new()),
    ] {
        let expected = source.duplicate();
        let mut cloned = None;
        assert_eq!(luminate_setting_value_view_clone(Some(&source), Some(&mut cloned)), LuminateStatus::Success);
        drop(source);
        assert_eq!(cloned.as_ref().unwrap().0, expected);
        luminate_setting_value_free(cloned.map(Box::new));
    }

    let source = ReportedSettingValue::Visible(table(vec![
        (
            "nested",
            SettingValue::Array(vec![
                SettingValue::Boolean(true),
                table(vec![("leaf", SettingValue::String("value".to_owned()))]),
            ]),
        ),
        ("integer", SettingValue::Integer(42)),
    ]));
    let expected = match &source {
        ReportedSettingValue::Visible(value) => value.duplicate(),
        _ => unreachable!("test constructs a visible value"),
    };
    let mut cloned = None;
    let visible = luminate_reported_setting_value_visible(Some(&source));
    assert_eq!(luminate_setting_value_view_clone(visible, Some(&mut cloned)), LuminateStatus::Success);
    drop(source);
    assert_eq!(cloned.as_ref().unwrap().0, expected);
    luminate_setting_value_free(cloned.map(Box::new));

    let mut unchanged: Option<LuminateSettingValue> = Some(LuminateSettingValue(SettingValue::Integer(1)));
    assert_eq!(luminate_setting_value_view_clone(None, Some(&mut unchanged)), LuminateStatus::NullPointer);
    assert_eq!(unchanged, Some(LuminateSettingValue(SettingValue::Integer(1))));
    for reported in [ReportedSettingValue::Unset, ReportedSettingValue::Redacted] {
        assert!(luminate_reported_setting_value_visible(Some(&reported)).is_none());
    }
    let scalar = SettingValue::Boolean(false);
    assert_eq!(luminate_setting_value_view_clone(Some(&scalar), None), LuminateStatus::NullPointer);
}

fn sample_changes() -> ManagementChangeSet {
    ManagementChangeSet {
        revision: 8,
        changes: vec![
            ManagementChange::DaemonPreferencesChanged { keys: vec!["prefer-shm".to_owned()] },
            ManagementChange::PluginActivationChanged { plugin: "one".to_owned() },
            ManagementChange::PluginReconciliationChanged { plugin: "two".to_owned() },
            ManagementChange::PluginSettingChanged {
                plugin: "three".to_owned(),
                key: "secret".to_owned(),
                sensitive: true,
            },
        ],
    }
}

#[test]
fn change_set_accessors_cover_every_change_shape_and_null_sentinels() {
    let changes = LuminateManagementChangeSet(sample_changes());
    let c = Some(&changes);
    assert_eq!(luminate_management_change_set_revision(c), 8);
    assert_eq!(luminate_management_change_set_count(c), 4);
    assert!(luminate_management_change_set_at(c, 4).is_none());
    for (index, expected_kind) in (0_u32..4).enumerate() {
        let change = luminate_management_change_set_at(c, index);
        assert_eq!(luminate_management_change_kind(change), expected_kind);
    }
    let daemon = luminate_management_change_set_at(c, 0);
    assert_eq!(luminate_management_change_key_count(daemon), 1);
    assert_eq!(luminate_management_change_key_at(daemon, 0), Some("prefer-shm"));
    assert!(luminate_management_change_plugin(daemon).is_none());
    let activation = luminate_management_change_set_at(c, 1);
    assert_eq!(luminate_management_change_plugin(activation), Some("one"));
    let setting = luminate_management_change_set_at(c, 3);
    assert_eq!(luminate_management_change_key_count(setting), 1);
    assert_eq!(luminate_management_change_key_at(setting, 0), Some("secret"));
    assert!(luminate_management_change_setting_sensitive(setting));

    assert_eq!(luminate_management_snapshot_revision(None), 0);
    assert_eq!(luminate_management_change_set_count(None), 0);
    assert_eq!(luminate_management_change_kind(None), u32::MAX);
    assert!(luminate_management_change_key_at(None, 0).is_none());
    assert!(luminate_managed_plugin_name(None).is_none());
    assert_eq!(luminate_managed_plugin_runtime_kind(None), u32::MAX);
    assert_eq!(luminate_setting_value_view_kind(None), u32::MAX);
}

#[test]
fn borrowed_event_change_sets_read_like_owned_ones() {
    let view = sample_changes();
    assert_eq!(luminate_management_change_set_view_revision(Some(&view)), 8);
    assert_eq!(luminate_management_change_set_view_count(Some(&view)), 4);
    assert_eq!(
        luminate_management_change_kind(luminate_management_change_set_view_at(Some(&view), 2)),
        2
    );
    assert!(luminate_management_change_set_view_at(Some(&view), 4).is_none());
    assert_eq!(luminate_management_change_set_view_count(None), 0);
}

#[test]
fn preferences_decode_in_field_order() {
    let devices = [LuminateDeviceReconciliationPreferenceInput { device_id: Some(b"keyboard"), policy: 7 }];
    let base = LuminateDaemonPreferencesInput {
        has_default_unsupported_policy: false,
        default_unsupported_policy: 99,
        has_reconciliation_policy: false,
        reconciliation_policy: 99,
        device_reconciliation: None,
        device_reconciliation_count: 0,
        has_cct_emulation: false,
        cct_emulation: 99,
        has_prefer_shm: false,
        prefer_shm: true,
        has_prefer_client_shm: false,
        prefer_client_shm: true,
    };
    let decoded = preferences_input(&base).expect("all absent");
    assert_eq!(decoded.default_unsupported_policy, None);
    assert_eq!(decoded.prefer_shm, None);
    assert!(decoded.device_reconciliation.is_empty());
    let bad_device = LuminateDaemonPreferencesInput { device_reconciliation: Some(&devices), device_reconciliation_count: 1, ..base };
    assert_eq!(preferences_input(&bad_device).err(), Some(LuminateStatus::InvalidArgument));
    let null_id = [LuminateDeviceReconciliationPreferenceInput { device_id: None, policy: 7 }];
    let null_device = LuminateDaemonPreferencesInput { device_reconciliation: Some(&null_id), device_reconciliation_count: 1, ..base };
    assert_eq!(preferences_input(&null_device).err(), Some(LuminateStatus::NullPointer));
    let bad_cct = LuminateDaemonPreferencesInput { has_cct_emulation: true, ..bad_device };
    assert_eq!(preferences_input(&bad_cct).err(), Some(LuminateStatus::InvalidArgument));
    let shm = LuminateDaemonPreferencesInput { has_prefer_shm: true, prefer_shm: false, ..base };
    assert_eq!(preferences_input(&shm).expect("shm").prefer_shm, Some(false));
    assert_eq!(read_optional_bool(true, false), Some(false));
    assert_eq!(read_optional_bool(false, true), None);
    assert_eq!(reconciliation(2), Ok(ReconciliationPolicy::Leave));
    assert_eq!(reconciliation(3), Err(LuminateStatus::InvalidArgument));
}

#[test]
fn setting_mutations_store_independent_copies() {
    let mut builder = None;
    luminate_management_patch_builder_new(0, Some(&mut builder));
    let mut value = LuminateSettingValue(SettingValue::Array(vec![SettingValue::Integer(1)]));
    assert_eq!(
        luminate_management_patch_builder_set_plugin_setting(builder.as_mut(), Some(b"p"), Some(b"k"), Some(&value)),
        LuminateStatus::Success
    );
    let pushed = LuminateSettingValue(SettingValue::Integer(2));
    luminate_setting_value_array_push(Some(&mut value), Some(&pushed));
    match &builder.as_ref().unwrap().0.mutations[0] {
        ManagementMutation::SetPluginSetting { plugin, key, value: stored } => {
            assert_eq!(plugin, "p");
            assert_eq!(key, "k");
            assert_eq!(stored, &SettingValue::Array(vec![SettingValue::Integer(1)]));
        },
        _ => panic!("expected a setting mutation"),
    }
    assert_eq!(value.0, SettingValue::Array(vec![SettingValue::Integer(1), SettingValue::Integer(2)]));

    let mut tbl = LuminateSettingValue(SettingValue::Table(TextMap::new()));
    let one = LuminateSettingValue(SettingValue::Integer(1));
    let two = LuminateSettingValue(SettingValue::Integer(2));
    luminate_setting_value_table_insert(Some(&mut tbl), Some(b"b"), Some(&one));
    luminate_setting_value_table_insert(Some(&mut tbl), Some(b"a"), Some(&one));
    luminate_setting_value_table_insert(Some(&mut tbl), Some(b"b"), Some(&two));
    assert_eq!(luminate_setting_value_view_count(Some(&tbl.0)), 2);
    assert_eq!(luminate_setting_value_view_table_key_at(Some(&tbl.0), 0), Some("a"));
    assert_eq!(luminate_setting_value_view_table_key_at(Some(&tbl.0), 1), Some("b"));
    assert_eq!(
        luminate_setting_value_view_integer(luminate_setting_value_view_table_value_at(Some(&tbl.0), 1)),
        2
    );
    assert_eq!(
        luminate_setting_value_table_insert(Some(&mut tbl), Some(&[0xff]), Some(&one)),
        LuminateStatus::InvalidUtf8
    );
    assert_eq!(luminate_setting_value_new_number(f64::NAN.to_bits(), None), LuminateStatus::InvalidArgument);
    assert_eq!(luminate_setting_value_new_number(0.0_f64.to_bits(), None), LuminateStatus::NullPointer);
}

#[test]
fn fixtures_and_result_finishing() {
    let prefs = preferences();
    assert_eq!(prefs.device_reconciliation.len(), 2);
    assert_eq!(prefs.device_reconciliation[0].device, "keyboard");
    assert_eq!(prefs.reconciliation_policy, Some(ReconciliationPolicy::Adopt));
    assert!(std::ptr::eq(preferences_ptr(&prefs), &prefs));
    let list = schemas();
    assert_eq!(list.len(), 6);
    assert_eq!(list[3].key, "setting.3");
    assert_eq!(list[5].label, "Setting 5");
    let plugin = plugin(PluginRuntimeState::Inactive);
    let entry = map_entry_at(&plugin.desired_settings, 1).expect("second entry");
    assert_eq!(entry.0, "b");
    assert!(map_entry_at(&plugin.desired_settings, 2).is_none());

    let mut diagnostics = Diagnostics::new();
    let (status, snapshot) = finish_snapshot(Ok(ManagementSnapshot {
        revision: 1,
        desired_daemon: preferences(),
        effective_daemon: preferences(),
        locked_daemon_settings: Vec::new(),
        plugins: Vec::new(),
    }), &mut diagnostics);
    assert!(diagnostics.last.is_none());
    assert_eq!(status, LuminateStatus::Success);
    assert_eq!(luminate_management_snapshot_revision(snapshot.as_ref()), 1);
    luminate_management_snapshot_free(snapshot.map(Box::new));
    let (status, snapshot) = finish_snapshot(Err(Error::Conflict("stale".to_owned())), &mut diagnostics);
    assert_eq!(status, LuminateStatus::Conflict);
    assert!(matches!(&diagnostics.last, Some(LastError::Failure(Error::Conflict(m))) if m == "stale"));
    assert!(snapshot.is_none());
    let (status, changes) = finish_changes(Ok(sample_changes()), &mut diagnostics);
    assert_eq!(status, LuminateStatus::Success);
    assert_eq!(luminate_management_change_set_count(changes.as_ref()), 4);
    luminate_management_change_set_free(changes.map(Box::new));
    let (status, changes) = finish_changes(Err(Error::PermissionDenied { reason: None }), &mut diagnostics);
    assert_eq!(status, LuminateStatus::PermissionDenied);
    assert!(matches!(&diagnostics.last, Some(LastError::Failure(Error::PermissionDenied { reason: None }))));
    assert!(changes.is_none());
    let reported = reported_map(vec![("z", ReportedSettingValue::Unset), ("m", ReportedSettingValue::Redacted)]);
    assert_eq!(map_entry_at(&reported, 0).expect("first").0, "m");
}

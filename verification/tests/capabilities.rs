use libluminate::capabilities::{
    luminate_appearance_capability_colour_count, luminate_appearance_slot_appearance,
    luminate_appearance_slot_at, luminate_appearance_slot_count, luminate_appearance_slot_note_count,
    luminate_appearance_slot_warning_count, luminate_appearance_slots_update_policy,
    luminate_capability_set_appearance_slots, luminate_capability_set_brightness_bits,
    luminate_capability_set_brightness_kind, luminate_capability_set_brightness_maximum,
    luminate_capability_set_brightness_scope, luminate_capability_set_cct_emulation,
    luminate_capability_set_colour_at, luminate_capability_set_colour_count,
    luminate_capability_set_emission, luminate_capability_set_frame_upload,
    luminate_capability_set_hardware_effects, luminate_capability_set_notifies_external_changes,
    luminate_capability_set_off_is_wear_safe, luminate_capability_set_persistence_explicit_commit,
    luminate_capability_set_persistence_kind, luminate_capability_set_persistence_readback,
    luminate_capability_set_persistence_requirement, luminate_capability_set_persistence_slots,
    luminate_capability_set_physical_power, luminate_capability_set_power_domain,
    luminate_capability_set_read_disturbs_output, luminate_capability_set_readable_facet_at,
    luminate_capability_set_readable_facet_count, luminate_capability_set_state_readback_kind,
    luminate_effect_choice_id, luminate_effect_choice_name, luminate_effect_parameter_brightness_bits,
    luminate_effect_parameter_choice_at, luminate_effect_parameter_choice_count,
    luminate_effect_parameter_colour_count_range, luminate_effect_parameter_direction_at,
    luminate_effect_parameter_direction_count, luminate_effect_parameter_duration_range,
    luminate_effect_parameter_kind, luminate_effect_parameter_speed_range,
    luminate_frame_upload_atomic, luminate_frame_upload_buffering,
    luminate_frame_upload_has_max_rate_hz, luminate_frame_upload_max_rate_hz,
    luminate_frame_upload_scope, luminate_frame_upload_shm, luminate_frame_upload_update_mode,
    luminate_hardware_effect_descriptor_id, luminate_hardware_effect_descriptor_name,
    luminate_hardware_effect_descriptor_parameter_at,
    luminate_hardware_effect_descriptor_parameter_count,
    luminate_hardware_effects_concurrent_with_streaming, luminate_hardware_effects_effect_at,
    luminate_hardware_effects_effect_count, luminate_hardware_effects_scope,
    luminate_physical_power_scope, luminate_power_domain_kind, luminate_power_domain_surface_id,
    luminate_readable_facet_fidelity, luminate_readable_facet_kind,
    luminate_shm_frame_has_max_rate_hz, luminate_shm_frame_matrix_height,
    luminate_shm_frame_matrix_width, luminate_shm_frame_max_rate_hz,
    luminate_shm_frame_pixel_count, luminate_shm_frame_pixel_format_at,
    luminate_shm_frame_pixel_format_count, luminate_shm_frame_shape_kind, AppearanceCapability,
    AppearanceSlotDescriptor, AppearanceSlotsCapability, BrightnessCapability, CapabilitySet,
    EffectChoice, EffectParameter, FrameUploadCapability, HardwareEffectDescriptor,
    HardwareEffectsCapability, LuminateFrameUploadCapability, LuminateU16Range, LuminateU32Range,
    PersistenceCapability, PhysicalPowerCapability, PowerDomainRef, ReadableFacet,
    ShmFrameCapability, ShmFrameShape, StateReadbackCapability,
};
use libluminate::colour::{
    luminate_colour_capability_channel_at, luminate_colour_capability_channel_count,
    luminate_colour_capability_encoding, luminate_colour_channel_capability_bits,
    luminate_colour_channel_capability_channel, ColourCapability, ColourChannel,
    ColourChannelCapability,
};
use libluminate::colour::Colour;
use libluminate::effects::{Effect, EffectDirection};
use libluminate::requests::{
    luminate_appearance_slot_value_effect, luminate_appearance_slot_value_id, AppearanceSlotValue,
};
use libluminate::management::CctEmulation;

fn bytes(text: Option<&str>) -> Vec<u8> {
    text.map(|t| t.as_bytes().to_vec()).unwrap_or_default()
}

fn rgb8() -> ColourCapability {
    ColourCapability::Additive(vec![
        ColourChannelCapability { channel: ColourChannel::Red, bits: 8 },
        ColourChannelCapability { channel: ColourChannel::Green, bits: 8 },
        ColourChannelCapability { channel: ColourChannel::Blue, bits: 8 },
    ])
}

fn default_capabilities() -> CapabilitySet {
    CapabilitySet {
        colour: Vec::new(),
        emission: false,
        off_is_wear_safe: false,
        cct_emulation: CctEmulation::Auto,
        brightness: BrightnessCapability::Absent,
        frame_upload: None,
        hardware_effects: None,
        persistence: PersistenceCapability::Volatile,
        state_readback: StateReadbackCapability::Unreadable,
        physical_power: None,
        power_domain: None,
        appearance_slots: None,
    }
}

fn assert_shm_capability(frame: Option<&LuminateFrameUploadCapability>) {
    let mut pixel_count = 0;
    let mut width = 0;
    let mut height = 0;
    let shm = luminate_frame_upload_shm(frame);
    assert!(shm.is_some());
    assert_eq!(luminate_shm_frame_pixel_format_count(shm), 2);
    assert_eq!(luminate_shm_frame_pixel_format_at(shm, 0), 0);
    assert_eq!(luminate_shm_frame_pixel_format_at(shm, 1), 3);
    assert_eq!(luminate_shm_frame_pixel_format_at(shm, 2), u32::MAX);
    assert_eq!(luminate_shm_frame_shape_kind(shm), 1);
    assert!(luminate_shm_frame_pixel_count(shm, Some(&mut pixel_count)));
    assert!(luminate_shm_frame_matrix_width(shm, Some(&mut width)));
    assert!(luminate_shm_frame_matrix_height(shm, Some(&mut height)));
    assert!(luminate_shm_frame_has_max_rate_hz(shm));
    assert_eq!(luminate_shm_frame_max_rate_hz(shm), 120);
    assert_eq!((pixel_count, width, height), (6, 3, 2));
}

#[test]
fn linear_shm_shape_exposes_only_its_pixel_count() {
    let capability = ShmFrameCapability {
        pixel_formats: vec![0],
        shape: ShmFrameShape::Linear { pixel_count: 5 },
        max_rate_hz: None,
    };
    let mut pixel_count = 0;
    let mut width = 7;
    let mut height = 8;
    assert!(luminate_shm_frame_pixel_count(Some(&capability), Some(&mut pixel_count)));
    assert!(!luminate_shm_frame_matrix_width(Some(&capability), Some(&mut width)));
    assert!(!luminate_shm_frame_matrix_height(Some(&capability), Some(&mut height)));
    assert!(!luminate_shm_frame_pixel_count(None, Some(&mut pixel_count)));
    assert!(!luminate_shm_frame_pixel_count(Some(&capability), None));
    assert_eq!((pixel_count, width, height), (5, 7, 8));
}

fn assert_independent_brightness(root: Option<&CapabilitySet>) {
    let mut bits = 0;
    let mut maximum = 0;
    let mut scope = u32::MAX;
    assert_eq!(luminate_capability_set_brightness_kind(root), 1);
    assert!(luminate_capability_set_brightness_bits(root, Some(&mut bits)));
    assert!(luminate_capability_set_brightness_maximum(root, Some(&mut maximum)));
    assert!(luminate_capability_set_brightness_scope(root, Some(&mut scope)));
    assert_eq!((bits, maximum, scope), (12, 4095, 1));
}

fn assert_profile_persistence(root: Option<&CapabilitySet>) {
    let mut requirement = u32::MAX;
    let mut slots = 0;
    let mut explicit_commit = false;
    let mut readback = false;
    assert_eq!(luminate_capability_set_persistence_kind(root), 2);
    assert!(luminate_capability_set_persistence_requirement(root, Some(&mut requirement)));
    assert!(luminate_capability_set_persistence_slots(root, Some(&mut slots)));
    assert!(luminate_capability_set_persistence_explicit_commit(root, Some(&mut explicit_commit)));
    assert!(luminate_capability_set_persistence_readback(root, Some(&mut readback)));
    assert_eq!((requirement, slots, explicit_commit, readback), (1, 4, true, true));
}

#[test]
fn capability_set_accessors_expose_nested_capabilities() {
    let capabilities = CapabilitySet {
        colour: vec![rgb8()],
        cct_emulation: CctEmulation::Disabled,
        brightness: BrightnessCapability::Independent { bits: 12, maximum: 4095, scope: 1 },
        frame_upload: Some(FrameUploadCapability {
            scope: 0,
            update_mode: 2,
            max_rate_hz: Some(60),
            atomic: true,
            buffering: 2,
            shm: Some(ShmFrameCapability {
                pixel_formats: vec![0, 3],
                shape: ShmFrameShape::Matrix { width: 3, height: 2 },
                max_rate_hz: Some(120),
            }),
        }),
        persistence: PersistenceCapability::Profiles {
            requirement: 1,
            slots: 4,
            explicit_commit: true,
            readback: true,
        },
        state_readback: StateReadbackCapability::Readable {
            facets: vec![ReadableFacet { facet: 0, fidelity: 1 }],
            read_disturbs_output: true,
            notifies_external_changes: true,
        },
        emission: true,
        physical_power: Some(PhysicalPowerCapability { scope: 2 }),
        power_domain: Some(PowerDomainRef::Surface { surface: "panel".to_owned() }),
        ..default_capabilities()
    };
    let root = Some(&capabilities);

    assert_eq!(luminate_capability_set_colour_count(root), 1);
    assert!(luminate_capability_set_colour_at(root, 1).is_none());
    assert!(luminate_capability_set_emission(root));
    assert!(!luminate_capability_set_off_is_wear_safe(root));
    assert_eq!(luminate_capability_set_cct_emulation(root), 1);
    assert_independent_brightness(root);

    let colour = luminate_capability_set_colour_at(root, 0);
    assert_eq!(luminate_colour_capability_encoding(colour), 0);
    assert_eq!(luminate_colour_capability_channel_count(colour), 3);
    let channel = luminate_colour_capability_channel_at(colour, 2);
    assert_eq!(luminate_colour_channel_capability_channel(channel), 2);
    assert_eq!(luminate_colour_channel_capability_bits(channel), 8);

    let frame = luminate_capability_set_frame_upload(root);
    assert_eq!(luminate_frame_upload_scope(frame), 0);
    assert_eq!(luminate_frame_upload_update_mode(frame), 2);
    assert!(luminate_frame_upload_has_max_rate_hz(frame));
    assert_eq!(luminate_frame_upload_max_rate_hz(frame), 60);
    assert!(luminate_frame_upload_atomic(frame));
    assert_eq!(luminate_frame_upload_buffering(frame), 2);
    assert_shm_capability(frame);

    assert_profile_persistence(root);

    assert_eq!(luminate_capability_set_state_readback_kind(root), 1);
    assert_eq!(luminate_capability_set_readable_facet_count(root), 1);
    assert!(luminate_capability_set_readable_facet_at(root, 1).is_none());
    let facet = luminate_capability_set_readable_facet_at(root, 0);
    assert_eq!(luminate_readable_facet_kind(facet), 0);
    assert_eq!(luminate_readable_facet_fidelity(facet), 1);
    assert!(luminate_capability_set_read_disturbs_output(root));
    assert!(luminate_capability_set_notifies_external_changes(root));

    let power = luminate_capability_set_physical_power(root);
    assert_eq!(luminate_physical_power_scope(power), 2);
    let domain = luminate_capability_set_power_domain(root);
    assert_eq!(luminate_power_domain_kind(domain), 1);
    assert_eq!(bytes(luminate_power_domain_surface_id(domain)), b"panel");
}

#[test]
fn hardware_effect_accessors_cover_parameter_variants() {
    let hardware = HardwareEffectsCapability {
        effects: vec![HardwareEffectDescriptor {
            id: "rainbow".to_owned(),
            name: "Rainbow".to_owned(),
            parameters: vec![
                EffectParameter::Colour { minimum_colours: 1, maximum_colours: 3 },
                EffectParameter::Direction {
                    values: vec![EffectDirection::Forward, EffectDirection::Reverse],
                },
                EffectParameter::Brightness { bits: 8 },
                EffectParameter::Choice {
                    options: vec![EffectChoice { id: "soft".to_owned(), name: "Soft".to_owned() }],
                },
            ],
        }],
        scope: 2,
        concurrent_with_streaming: true,
    };
    let hardware = Some(&hardware);

    assert_eq!(luminate_hardware_effects_effect_count(hardware), 1);
    assert_eq!(luminate_hardware_effects_scope(hardware), 2);
    assert!(luminate_hardware_effects_concurrent_with_streaming(hardware));
    let effect = luminate_hardware_effects_effect_at(hardware, 0);
    assert_eq!(bytes(luminate_hardware_effect_descriptor_id(effect)), b"rainbow");
    assert_eq!(bytes(luminate_hardware_effect_descriptor_name(effect)), b"Rainbow");
    assert_eq!(luminate_hardware_effect_descriptor_parameter_count(effect), 4);

    let colour = luminate_hardware_effect_descriptor_parameter_at(effect, 0);
    assert_eq!(luminate_effect_parameter_kind(colour), 0);
    let mut minimum = 0;
    let mut maximum = 0;
    assert!(luminate_effect_parameter_colour_count_range(colour, Some(&mut minimum), Some(&mut maximum)));
    assert_eq!((minimum, maximum), (1, 3));

    let direction = luminate_hardware_effect_descriptor_parameter_at(effect, 1);
    assert_eq!(luminate_effect_parameter_kind(direction), 2);
    assert_eq!(luminate_effect_parameter_direction_count(direction), 2);
    assert_eq!(luminate_effect_parameter_direction_at(direction, 1), 1);
    assert_eq!(luminate_effect_parameter_direction_at(direction, 2), u32::MAX);

    let brightness = luminate_hardware_effect_descriptor_parameter_at(effect, 2);
    let mut bits = 0;
    assert!(luminate_effect_parameter_brightness_bits(brightness, Some(&mut bits)));
    assert_eq!(bits, 8);
    let choice = luminate_hardware_effect_descriptor_parameter_at(effect, 3);
    assert_eq!(luminate_effect_parameter_choice_count(choice), 1);
    let option = luminate_effect_parameter_choice_at(choice, 0);
    assert_eq!(bytes(luminate_effect_choice_id(option)), b"soft");
    assert_eq!(bytes(luminate_effect_choice_name(option)), b"Soft");
}

#[test]
fn persistence_current_state_and_false_flags_are_reported() {
    let capabilities = CapabilitySet {
        persistence: PersistenceCapability::CurrentState {
            requirement: 0,
            explicit_commit: false,
            readback: false,
        },
        state_readback: StateReadbackCapability::Readable {
            facets: Vec::new(),
            read_disturbs_output: false,
            notifies_external_changes: false,
        },
        ..default_capabilities()
    };
    let root = Some(&capabilities);
    let mut requirement = u32::MAX;
    let mut slots = 11;
    let mut explicit_commit = true;
    let mut readback = true;

    assert_eq!(luminate_capability_set_persistence_kind(root), 1);
    assert!(luminate_capability_set_persistence_requirement(root, Some(&mut requirement)));
    assert!(!luminate_capability_set_persistence_slots(root, Some(&mut slots)));
    assert!(luminate_capability_set_persistence_explicit_commit(root, Some(&mut explicit_commit)));
    assert!(luminate_capability_set_persistence_readback(root, Some(&mut readback)));
    assert_eq!((requirement, slots), (0, 11));
    assert!(!explicit_commit);
    assert!(!readback);
    assert!(!luminate_capability_set_read_disturbs_output(root));
    assert!(!luminate_capability_set_notifies_external_changes(root));
    assert!(luminate_capability_set_hardware_effects(root).is_none());

    let mut bits = 7;
    let mut maximum = 8;
    assert!(!luminate_capability_set_brightness_bits(root, Some(&mut bits)));
    assert!(!luminate_capability_set_brightness_maximum(root, Some(&mut maximum)));
    assert_eq!((bits, maximum), (7, 8));
}

#[test]
fn power_domain_device_variant_has_no_surface_id() {
    let capabilities = CapabilitySet {
        power_domain: Some(PowerDomainRef::Device),
        ..default_capabilities()
    };
    let domain = luminate_capability_set_power_domain(Some(&capabilities));
    assert_eq!(luminate_power_domain_kind(domain), 0);
    assert!(bytes(luminate_power_domain_surface_id(domain)).is_empty());
}

#[test]
fn effect_parameter_speed_and_duration_variants_expose_their_ranges() {
    let parameters = [
        EffectParameter::Speed { range: LuminateU16Range { minimum: 1, maximum: 10, step: 1 } },
        EffectParameter::Duration {
            milliseconds: LuminateU32Range { minimum: 100, maximum: 5000, step: 100 },
        },
    ];

    let speed = Some(&parameters[0]);
    assert_eq!(luminate_effect_parameter_kind(speed), 1);
    let mut range = LuminateU16Range { minimum: 0, maximum: 0, step: 0 };
    assert!(luminate_effect_parameter_speed_range(speed, Some(&mut range)));
    assert_eq!((range.minimum, range.maximum, range.step), (1, 10, 1));
    let mut minimum = 7;
    let mut maximum = 8;
    assert!(!luminate_effect_parameter_colour_count_range(speed, Some(&mut minimum), Some(&mut maximum)));
    assert_eq!((minimum, maximum), (7, 8));
    let mut duration_range = LuminateU32Range { minimum: 1, maximum: 2, step: 3 };
    assert!(!luminate_effect_parameter_duration_range(speed, Some(&mut duration_range)));
    assert_eq!((duration_range.minimum, duration_range.maximum, duration_range.step), (1, 2, 3));

    let duration = Some(&parameters[1]);
    assert_eq!(luminate_effect_parameter_kind(duration), 3);
    assert!(luminate_effect_parameter_duration_range(duration, Some(&mut duration_range)));
    assert_eq!((duration_range.minimum, duration_range.maximum, duration_range.step), (100, 5000, 100));
    assert!(!luminate_effect_parameter_speed_range(duration, Some(&mut range)));
}

#[test]
fn null_pointers_return_documented_sentinels_across_nested_accessors() {
    assert_eq!(luminate_colour_capability_encoding(None), u32::MAX);
    assert_eq!(luminate_colour_capability_channel_count(None), 0);
    assert!(luminate_colour_capability_channel_at(None, 0).is_none());
    assert_eq!(luminate_colour_channel_capability_channel(None), u32::MAX);
    assert_eq!(luminate_colour_channel_capability_bits(None), 0);
    assert_eq!(luminate_frame_upload_scope(None), u32::MAX);
    assert_eq!(luminate_frame_upload_update_mode(None), u32::MAX);
    assert!(!luminate_frame_upload_has_max_rate_hz(None));
    assert_eq!(luminate_frame_upload_max_rate_hz(None), 0);
    assert!(!luminate_frame_upload_atomic(None));
    assert_eq!(luminate_frame_upload_buffering(None), u32::MAX);
    assert_eq!(luminate_hardware_effects_scope(None), u32::MAX);
    assert!(!luminate_hardware_effects_concurrent_with_streaming(None));
    assert_eq!(luminate_hardware_effects_effect_count(None), 0);
    assert!(luminate_hardware_effects_effect_at(None, 0).is_none());
    assert!(bytes(luminate_hardware_effect_descriptor_id(None)).is_empty());
    assert!(bytes(luminate_hardware_effect_descriptor_name(None)).is_empty());
    assert_eq!(luminate_hardware_effect_descriptor_parameter_count(None), 0);
    assert!(luminate_hardware_effect_descriptor_parameter_at(None, 0).is_none());
    assert_eq!(luminate_effect_parameter_kind(None), u32::MAX);
    assert!(!luminate_effect_parameter_colour_count_range(None, None, None));
    assert_eq!(luminate_effect_parameter_direction_count(None), 0);
    assert_eq!(luminate_effect_parameter_direction_at(None, 0), u32::MAX);
    assert!(!luminate_effect_parameter_brightness_bits(None, None));
    assert_eq!(luminate_effect_parameter_choice_count(None), 0);
    assert!(luminate_effect_parameter_choice_at(None, 0).is_none());
    assert!(bytes(luminate_effect_choice_id(None)).is_empty());
    assert!(bytes(luminate_effect_choice_name(None)).is_empty());
    assert_eq!(luminate_readable_facet_kind(None), u32::MAX);
    assert_eq!(luminate_readable_facet_fidelity(None), u32::MAX);
    assert_eq!(luminate_physical_power_scope(None), u32::MAX);
}

#[test]
fn absent_capabilities_return_documented_sentinels() {
    let capabilities = default_capabilities();
    let root = Some(&capabilities);

    assert_eq!(luminate_capability_set_brightness_kind(root), 0);
    let mut scope = 9;
    assert!(!luminate_capability_set_brightness_scope(root, Some(&mut scope)));
    assert_eq!(scope, 9);
    assert!(luminate_capability_set_frame_upload(root).is_none());
    assert_eq!(luminate_capability_set_persistence_kind(root), 0);
    let mut requirement = 7;
    let mut slots = 8;
    let mut explicit_commit = true;
    let mut readback = true;
    assert!(!luminate_capability_set_persistence_requirement(root, Some(&mut requirement)));
    assert!(!luminate_capability_set_persistence_slots(root, Some(&mut slots)));
    assert!(!luminate_capability_set_persistence_explicit_commit(root, Some(&mut explicit_commit)));
    assert!(!luminate_capability_set_persistence_readback(root, Some(&mut readback)));
    assert_eq!((requirement, slots, explicit_commit, readback), (7, 8, true, true));
    assert_eq!(luminate_capability_set_state_readback_kind(root), 0);
    assert_eq!(luminate_capability_set_readable_facet_count(root), 0);
    assert_eq!(luminate_capability_set_colour_count(None), 0);
    assert_eq!(luminate_capability_set_cct_emulation(None), u32::MAX);
    assert_eq!(luminate_capability_set_brightness_kind(None), u32::MAX);
    assert!(luminate_capability_set_physical_power(None).is_none());
    assert_eq!(luminate_power_domain_kind(None), u32::MAX);
}

#[test]
fn capability_and_value_accessors_preserve_order_metadata_and_null_sentinels() {
    let slots = AppearanceSlotsCapability {
        slots: vec![AppearanceSlotDescriptor {
            id: "ac".to_owned(),
            name: "AC".to_owned(),
            appearance: AppearanceCapability {
                colour: vec![rgb8()],
                cct_emulation: CctEmulation::Auto,
                hardware_effects: None,
            },
            persistence: PersistenceCapability::Volatile,
            notes: vec!["Stored by firmware".to_owned()],
            warnings: vec!["Write sparingly".to_owned()],
        }],
        update_policy: 1,
    };
    let capabilities = CapabilitySet { appearance_slots: Some(slots), ..default_capabilities() };

    let capability = luminate_capability_set_appearance_slots(Some(&capabilities));
    assert_eq!(luminate_appearance_slots_update_policy(capability), 1);
    assert_eq!(luminate_appearance_slot_count(capability), 1);
    let descriptor = luminate_appearance_slot_at(capability, 0);
    assert_eq!(luminate_appearance_slot_note_count(descriptor), 1);
    assert_eq!(luminate_appearance_slot_warning_count(descriptor), 1);
    assert_eq!(
        luminate_appearance_capability_colour_count(luminate_appearance_slot_appearance(descriptor)),
        1
    );
    assert!(luminate_appearance_slot_at(capability, 1).is_none());
    assert_eq!(luminate_appearance_slots_update_policy(None), u32::MAX);

    let value = AppearanceSlotValue {
        slot: "ac".to_owned(),
        effect: Effect::Static { colour: Colour::Hsv { hue: 1, saturation: 2, value: 3 } },
    };
    assert_eq!(luminate_appearance_slot_value_id(Some(&value)), Some("ac"));
    let effect = luminate_appearance_slot_value_effect(Some(&value));
    assert!(matches!(effect, Some(Effect::Static { .. })));
    assert!(luminate_appearance_slot_value_effect(None).is_none());
    assert!(luminate_appearance_slot_value_id(None).is_none());
}

#[test]
fn matrix_pixel_count_is_absent_when_it_overflows() {
    let capability = ShmFrameCapability {
        pixel_formats: Vec::new(),
        shape: ShmFrameShape::Matrix { width: 70_000, height: 70_000 },
        max_rate_hz: None,
    };
    let mut pixel_count = 9;
    assert!(!luminate_shm_frame_pixel_count(Some(&capability), Some(&mut pixel_count)));
    assert_eq!(pixel_count, 9);
    let mut width = 0;
    assert!(luminate_shm_frame_matrix_width(Some(&capability), Some(&mut width)));
    assert_eq!(width, 70_000);
}

use libluminate::capabilities::{
    BrightnessCapability, CapabilitySet, PersistenceCapability, StateReadbackCapability,
};
use libluminate::effects::{luminate_effect_free, luminate_event_free, Event, LuminateEvent};
use libluminate::management::CctEmulation;
use libluminate::models::{
    luminate_device_capabilities, luminate_device_category, luminate_device_host_attached,
    luminate_device_id, luminate_device_model, luminate_device_name, luminate_device_note_at,
    luminate_device_note_count, luminate_device_physical_tag_at,
    luminate_device_physical_tag_count, luminate_device_provider_instance,
    luminate_device_snapshot_device, luminate_device_snapshot_free, luminate_device_surface_at,
    luminate_device_surface_count, luminate_device_vendor, luminate_device_warning_at,
    luminate_device_warning_count, luminate_element_capabilities, luminate_element_geometry_kind,
    luminate_element_geometry_linear, luminate_element_geometry_matrix_cell,
    luminate_element_geometry_point, luminate_element_geometry_rect, luminate_element_id,
    luminate_element_kind, luminate_element_name, luminate_element_note_at,
    luminate_element_note_count, luminate_element_physical_tag_at,
    luminate_element_physical_tag_count, luminate_element_warning_at,
    luminate_element_warning_count, luminate_group_capabilities, luminate_group_description,
    luminate_group_id, luminate_group_kind, luminate_group_member_at, luminate_group_member_count,
    luminate_group_member_element_id, luminate_group_member_group_id, luminate_group_member_kind,
    luminate_group_member_surface_id, luminate_group_name, luminate_group_note_at,
    luminate_group_note_count, luminate_group_warning_at, luminate_group_warning_count,
    luminate_surface_capabilities, luminate_surface_element_at, luminate_surface_element_count,
    luminate_surface_id, luminate_surface_kind, luminate_surface_linear_length,
    luminate_surface_matrix_size, luminate_surface_name, luminate_surface_note_at,
    luminate_surface_note_count, luminate_surface_physical_tag_at,
    luminate_surface_physical_tag_count, luminate_surface_sparse_size, luminate_surface_warning_at,
    luminate_surface_warning_count, luminate_topology_snapshot_device_at,
    luminate_topology_snapshot_device_count, luminate_topology_snapshot_free,
    luminate_withdrawn_device_list_at, luminate_withdrawn_device_list_count,
    luminate_withdrawn_device_list_free, Device, Element, ElementGeometry, ElementKind, Group,
    GroupMember, LuminateDeviceSnapshot, LuminateMatrixCell, LuminatePoint, LuminateRect,
    LuminateTopologySnapshot, LuminateWithdrawnDeviceList, Surface, SurfaceKind,
};

fn bytes(text: Option<&str>) -> Option<&[u8]> {
    text.map(str::as_bytes)
}

fn bits(value: f32) -> u32 {
    value.to_bits()
}

fn assert_f32_eq(actual: u32, expected: f32) {
    assert!((f32::from_bits(actual) - expected).abs() < f32::EPSILON);
}

fn default_capabilities() -> CapabilitySet {
    CapabilitySet {
        colour: Vec::new(),
        emission: false,
        off_is_wear_safe: false,
        cct_emulation: CctEmulation::Auto,
        brightness: BrightnessCapability::Absent,
        frame_upload: None,
        hardware_effects: None,
        persistence: PersistenceCapability::Volatile,
        state_readback: StateReadbackCapability::Unreadable,
        physical_power: None,
        power_domain: None,
        appearance_slots: None,
    }
}

fn element(kind: ElementKind, geometry: Option<ElementGeometry>) -> Element {
    Element {
        id: "escape".to_owned(),
        name: Some("Escape".to_owned()),
        kind,
        geometry,
        physical_tags: vec!["shape:keycap".to_owned(), "position:escape".to_owned()],
        capabilities: default_capabilities(),
        notes: vec!["element note".to_owned()],
        warnings: vec!["element warning".to_owned()],
    }
}

fn surface(kind: SurfaceKind, elements: Vec<Element>) -> Surface {
    Surface {
        id: "keys".to_owned(),
        name: "Keys".to_owned(),
        kind,
        physical_tags: vec!["layout:grid".to_owned(), "position:front".to_owned()],
        elements,
        capabilities: default_capabilities(),
        notes: vec!["surface note".to_owned()],
        warnings: vec!["surface warning".to_owned()],
    }
}

const USER_GROUP: u32 = 1;

fn group(members: Vec<GroupMember>) -> Group {
    Group {
        id: "gaming".to_owned(),
        name: "Gaming".to_owned(),
        description: Some("Gaming controls".to_owned()),
        kind: USER_GROUP,
        members,
        capabilities: default_capabilities(),
        notes: vec!["group note".to_owned()],
        warnings: vec!["group warning".to_owned()],
    }
}

fn device() -> Device {
    Device {
        id: "keyboard".to_owned(),
        name: "Desk Keyboard".to_owned(),
        vendor: Some("Luminate".to_owned()),
        model: None,
        provider_instance: Some("demo".to_owned()),
        surfaces: Vec::new(),
        groups: Vec::new(),
        capabilities: default_capabilities(),
        category: Some("keyboard".to_owned()),
        physical_tags: vec!["shape:keyboard".to_owned()],
        host_attached: false,
        notes: vec!["USB attached".to_owned()],
        warnings: vec!["Very bright".to_owned()],
    }
}

#[test]
fn surface_accessors_cover_shapes_and_nested_values() {
    let element = element(ElementKind::Key, None);
    let surfaces = [
        surface(SurfaceKind::Opaque, vec![element]),
        surface(SurfaceKind::Zone, Vec::new()),
        surface(SurfaceKind::Linear { length: bits(3.5) }, Vec::new()),
        surface(SurfaceKind::Sparse2d { width: bits(4.0), height: bits(2.0) }, Vec::new()),
        surface(SurfaceKind::Matrix { rows: 6, cols: 22 }, Vec::new()),
    ];

    for (surface, expected_kind) in surfaces.iter().zip(0_u32..) {
        assert_eq!(luminate_surface_kind(Some(surface)), expected_kind);
    }

    let opaque = Some(&surfaces[0]);
    assert_eq!(bytes(luminate_surface_id(opaque)), Some(b"keys".as_slice()));
    assert_eq!(bytes(luminate_surface_name(opaque)), Some(b"Keys".as_slice()));
    assert_eq!(luminate_surface_element_count(opaque), 1);
    assert!(luminate_surface_element_at(opaque, 0).is_some());
    assert!(luminate_surface_element_at(opaque, 1).is_none());
    assert_eq!(luminate_surface_physical_tag_count(opaque), 2);
    assert_eq!(bytes(luminate_surface_physical_tag_at(opaque, 0)), Some(b"layout:grid".as_slice()));
    assert_eq!(bytes(luminate_surface_physical_tag_at(opaque, 1)), Some(b"position:front".as_slice()));
    assert_eq!(bytes(luminate_surface_physical_tag_at(opaque, 2)), None);
    assert_eq!(luminate_surface_note_count(opaque), 1);
    assert_eq!(bytes(luminate_surface_note_at(opaque, 0)), Some(b"surface note".as_slice()));
    assert_eq!(luminate_surface_warning_count(opaque), 1);
    assert_eq!(bytes(luminate_surface_warning_at(opaque, 0)), Some(b"surface warning".as_slice()));
    assert!(luminate_surface_capabilities(opaque).is_some());
    let mut unchanged = bits(9.0);
    assert!(!luminate_surface_linear_length(opaque, Some(&mut unchanged)));
    assert_f32_eq(unchanged, 9.0);

    let linear = Some(&surfaces[2]);
    let sparse = Some(&surfaces[3]);
    let matrix = Some(&surfaces[4]);
    let mut length = bits(0.0);
    assert!(luminate_surface_linear_length(linear, Some(&mut length)));
    assert_f32_eq(length, 3.5);
    let mut sparse_size = LuminatePoint { x: bits(0.0), y: bits(0.0) };
    assert!(luminate_surface_sparse_size(sparse, Some(&mut sparse_size)));
    assert_eq!((f32::from_bits(sparse_size.x), f32::from_bits(sparse_size.y)), (4.0, 2.0));
    let mut matrix_size = LuminateMatrixCell { row: 0, column: 0 };
    assert!(luminate_surface_matrix_size(matrix, Some(&mut matrix_size)));
    assert_eq!((matrix_size.row, matrix_size.column), (6, 22));
}

#[test]
fn element_accessors_cover_kinds_and_geometries() {
    let geometries = [
        None,
        Some(ElementGeometry::Rect { x: bits(0.1), y: bits(0.2), w: bits(0.3), h: bits(0.4) }),
        Some(ElementGeometry::Point { x: bits(0.5), y: bits(0.6) }),
        Some(ElementGeometry::Linear { position: bits(0.7) }),
        Some(ElementGeometry::MatrixCell { row: 2, col: 3 }),
    ];
    let kinds = [
        ElementKind::Key,
        ElementKind::Led,
        ElementKind::Zone,
        ElementKind::Logo,
        ElementKind::RingSegment,
    ];
    let elements: Vec<_> =
        kinds.into_iter().zip(geometries).map(|(kind, geometry)| element(kind, geometry)).collect();

    for (expected_kind, element) in (0_u32..).zip(&elements) {
        assert_eq!(luminate_element_kind(Some(element)), expected_kind);
        assert_eq!(luminate_element_geometry_kind(Some(element)), expected_kind);
    }

    let rect = Some(&elements[1]);
    let point = Some(&elements[2]);
    let linear = Some(&elements[3]);
    let matrix = Some(&elements[4]);
    assert_eq!(bytes(luminate_element_id(rect)), Some(b"escape".as_slice()));
    assert_eq!(bytes(luminate_element_name(rect)), Some(b"Escape".as_slice()));
    let mut value = LuminateRect { x: 0, y: 0, width: 0, height: 0 };
    assert!(luminate_element_geometry_rect(rect, Some(&mut value)));
    assert_eq!(
        (
            f32::from_bits(value.x),
            f32::from_bits(value.y),
            f32::from_bits(value.width),
            f32::from_bits(value.height)
        ),
        (0.1, 0.2, 0.3, 0.4)
    );
    let mut point_value = LuminatePoint { x: 0, y: 0 };
    assert!(luminate_element_geometry_point(point, Some(&mut point_value)));
    assert_eq!((f32::from_bits(point_value.x), f32::from_bits(point_value.y)), (0.5, 0.6));
    let mut position = bits(0.0);
    assert!(luminate_element_geometry_linear(linear, Some(&mut position)));
    assert_f32_eq(position, 0.7);
    let mut cell = LuminateMatrixCell { row: 0, column: 0 };
    assert!(luminate_element_geometry_matrix_cell(matrix, Some(&mut cell)));
    assert_eq!((cell.row, cell.column), (2, 3));
    assert!(luminate_element_capabilities(rect).is_some());
    assert_eq!(luminate_element_physical_tag_count(rect), 2);
    assert_eq!(bytes(luminate_element_physical_tag_at(rect, 0)), Some(b"shape:keycap".as_slice()));
    assert_eq!(bytes(luminate_element_physical_tag_at(rect, 1)), Some(b"position:escape".as_slice()));
    assert_eq!(bytes(luminate_element_physical_tag_at(rect, 2)), None);
    assert_eq!(luminate_element_note_count(rect), 1);
    assert_eq!(bytes(luminate_element_note_at(rect, 0)), Some(b"element note".as_slice()));
    assert_eq!(luminate_element_warning_count(rect), 1);
    assert_eq!(bytes(luminate_element_warning_at(rect, 0)), Some(b"element warning".as_slice()));
}

#[test]
fn group_accessors_cover_member_variants() {
    let group = group(vec![
        GroupMember::Surface("keys".to_owned()),
        GroupMember::Element { surface: "keys".to_owned(), element: "escape".to_owned() },
        GroupMember::Group("nested".to_owned()),
    ]);
    let g = Some(&group);

    assert_eq!(bytes(luminate_group_id(g)), Some(b"gaming".as_slice()));
    assert_eq!(bytes(luminate_group_name(g)), Some(b"Gaming".as_slice()));
    assert_eq!(bytes(luminate_group_description(g)), Some(b"Gaming controls".as_slice()));
    assert_eq!(luminate_group_kind(g), USER_GROUP);
    assert_eq!(luminate_group_member_count(g), 3);
    assert!(luminate_group_member_at(g, 3).is_none());
    assert!(luminate_group_capabilities(g).is_some());
    assert_eq!(luminate_group_note_count(g), 1);
    assert_eq!(bytes(luminate_group_note_at(g, 0)), Some(b"group note".as_slice()));
    assert_eq!(luminate_group_warning_count(g), 1);
    assert_eq!(bytes(luminate_group_warning_at(g, 0)), Some(b"group warning".as_slice()));

    let surface = luminate_group_member_at(g, 0);
    assert_eq!(luminate_group_member_kind(surface), 0);
    assert_eq!(bytes(luminate_group_member_surface_id(surface)), Some(b"keys".as_slice()));
    assert_eq!(bytes(luminate_group_member_element_id(surface)), None);

    let element = luminate_group_member_at(g, 1);
    assert_eq!(luminate_group_member_kind(element), 1);
    assert_eq!(bytes(luminate_group_member_surface_id(element)), Some(b"keys".as_slice()));
    assert_eq!(bytes(luminate_group_member_element_id(element)), Some(b"escape".as_slice()));

    let nested = luminate_group_member_at(g, 2);
    assert_eq!(luminate_group_member_kind(nested), 2);
    assert_eq!(bytes(luminate_group_member_group_id(nested)), Some(b"nested".as_slice()));
}

#[test]
fn models_tests_null_and_absent_values_return_documented_sentinels() {
    assert_eq!(luminate_device_surface_count(None), 0);
    assert!(luminate_device_surface_at(None, 0).is_none());
    assert!(luminate_device_capabilities(None).is_none());
    assert_eq!(luminate_surface_kind(None), u32::MAX);
    assert_eq!(luminate_surface_physical_tag_count(None), 0);
    assert_eq!(bytes(luminate_surface_physical_tag_at(None, 0)), None);
    let mut point = LuminatePoint { x: bits(1.0), y: bits(2.0) };
    let mut cell = LuminateMatrixCell { row: 1, column: 2 };
    let mut rect = LuminateRect { x: bits(1.0), y: bits(2.0), width: bits(3.0), height: bits(4.0) };
    let mut scalar = bits(5.0);
    assert!(!luminate_surface_sparse_size(None, Some(&mut point)));
    assert_eq!((f32::from_bits(point.x), f32::from_bits(point.y)), (1.0, 2.0));
    assert!(!luminate_surface_matrix_size(None, Some(&mut cell)));
    assert_eq!((cell.row, cell.column), (1, 2));
    assert_eq!(luminate_element_kind(None), u32::MAX);
    assert_eq!(luminate_element_physical_tag_count(None), 0);
    assert_eq!(bytes(luminate_element_physical_tag_at(None, 0)), None);
    assert_eq!(luminate_element_geometry_kind(None), u32::MAX);
    assert!(!luminate_element_geometry_rect(None, Some(&mut rect)));
    assert_f32_eq(rect.width, 3.0);
    assert!(!luminate_element_geometry_point(None, Some(&mut point)));
    assert_f32_eq(point.x, 1.0);
    assert!(!luminate_element_geometry_linear(None, Some(&mut scalar)));
    assert_f32_eq(scalar, 5.0);
    assert!(!luminate_element_geometry_matrix_cell(None, Some(&mut cell)));
    assert_eq!(cell.row, 1);
    assert_eq!(bytes(luminate_group_description(None)), None);
    assert_eq!(luminate_group_member_kind(None), u32::MAX);
    assert_eq!(bytes(luminate_group_member_surface_id(None)), None);
    assert_eq!(bytes(luminate_group_member_element_id(None)), None);
    assert_eq!(bytes(luminate_group_member_group_id(None)), None);

    let mut unnamed = element(ElementKind::Led, None);
    unnamed.name = None;
    assert_eq!(bytes(luminate_element_name(Some(&unnamed))), None);
}

#[test]
fn physical_tag_accessors_cover_empty_vectors() {
    let mut empty_surface = surface(SurfaceKind::Opaque, Vec::new());
    empty_surface.physical_tags.clear();
    let mut empty_element = element(ElementKind::Led, None);
    empty_element.physical_tags.clear();

    assert_eq!(luminate_surface_physical_tag_count(Some(&empty_surface)), 0);
    assert_eq!(bytes(luminate_surface_physical_tag_at(Some(&empty_surface), 0)), None);
    assert_eq!(luminate_element_physical_tag_count(Some(&empty_element)), 0);
    assert_eq!(bytes(luminate_element_physical_tag_at(Some(&empty_element), 0)), None);
}

#[test]
fn topology_snapshot_accessors_cover_contents_bounds_and_null() {
    let snapshot = LuminateTopologySnapshot(vec![device()]);
    let snapshot = Some(&snapshot);

    assert_eq!(luminate_topology_snapshot_device_count(snapshot), 1);
    let borrowed = luminate_topology_snapshot_device_at(snapshot, 0);
    assert!(borrowed.is_some());
    assert_eq!(bytes(luminate_device_id(borrowed)), Some(&b"keyboard"[..]));
    assert_eq!(bytes(luminate_device_name(borrowed)), Some(&b"Desk Keyboard"[..]));
    assert!(luminate_topology_snapshot_device_at(snapshot, 1).is_none());
    assert_eq!(luminate_topology_snapshot_device_count(None), 0);
    assert!(luminate_topology_snapshot_device_at(None, 0).is_none());
}

#[test]
fn device_snapshot_and_metadata_accessors_preserve_optional_views() {
    let snapshot = LuminateDeviceSnapshot(device());
    let snapshot = Some(&snapshot);

    let borrowed = luminate_device_snapshot_device(snapshot);
    assert!(borrowed.is_some());
    assert_eq!(bytes(luminate_device_vendor(borrowed)), Some(&b"Luminate"[..]));
    assert_eq!(bytes(luminate_device_model(borrowed)), None);
    assert_eq!(bytes(luminate_device_provider_instance(borrowed)), Some(b"demo".as_slice()));
    assert_eq!(bytes(luminate_device_category(borrowed)), Some(&b"keyboard"[..]));
    assert!(!luminate_device_host_attached(borrowed));
    assert_eq!(bytes(luminate_device_vendor(None)), None);
    assert!(!luminate_device_host_attached(None));
    assert!(luminate_device_snapshot_device(None).is_none());
}

#[test]
fn nested_string_vectors_cover_values_bounds_and_null() {
    let fixture = device();
    let borrowed = Some(&fixture);
    let mut empty_fixture = device();
    empty_fixture.physical_tags.clear();
    let empty = Some(&empty_fixture);

    assert_eq!(luminate_device_physical_tag_count(borrowed), 1);
    assert_eq!(bytes(luminate_device_physical_tag_at(borrowed, 0)), Some(&b"shape:keyboard"[..]));
    assert_eq!(bytes(luminate_device_physical_tag_at(borrowed, 1)), None);
    assert_eq!(luminate_device_physical_tag_count(empty), 0);
    assert_eq!(bytes(luminate_device_physical_tag_at(empty, 0)), None);
    assert_eq!(luminate_device_note_count(borrowed), 1);
    assert_eq!(bytes(luminate_device_note_at(borrowed, 0)), Some(&b"USB attached"[..]));
    assert_eq!(bytes(luminate_device_note_at(borrowed, 1)), None);
    assert_eq!(luminate_device_warning_count(borrowed), 1);
    assert_eq!(bytes(luminate_device_warning_at(borrowed, 0)), Some(&b"Very bright"[..]));
    assert_eq!(luminate_device_note_count(None), 0);
    assert_eq!(luminate_device_physical_tag_count(None), 0);
    assert_eq!(bytes(luminate_device_physical_tag_at(None, 0)), None);
    assert_eq!(bytes(luminate_device_note_at(None, 0)), None);
}

#[test]
fn owned_root_free_functions_accept_owned_values_and_null() {
    let topology = Box::new(LuminateTopologySnapshot(vec![device()]));
    let device = Box::new(LuminateDeviceSnapshot(device()));
    let event = Box::new(LuminateEvent(Event::TopologyChanged { devices: vec!["keyboard".to_owned()] }));

    luminate_topology_snapshot_free(Some(topology));
    luminate_device_snapshot_free(Some(device));
    luminate_event_free(Some(event));
    luminate_topology_snapshot_free(None);
    luminate_device_snapshot_free(None);
    luminate_event_free(None);
    luminate_effect_free(None);
}

#[test]
fn withdrawn_device_lists_expose_ids_in_order() {
    let list = LuminateWithdrawnDeviceList(vec!["lamp".to_owned(), "strip".to_owned()]);
    assert_eq!(luminate_withdrawn_device_list_count(Some(&list)), 2);
    assert_eq!(luminate_withdrawn_device_list_at(Some(&list), 0), Some("lamp"));
    assert_eq!(luminate_withdrawn_device_list_at(Some(&list), 1), Some("strip"));
    assert_eq!(luminate_withdrawn_device_list_at(Some(&list), 2), None);
    assert_eq!(luminate_withdrawn_device_list_count(None), 0);
    luminate_withdrawn_device_list_free(Some(Box::new(list)));
    luminate_withdrawn_device_list_free(None);
}

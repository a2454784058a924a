//! The device topology: devices, their surfaces, elements and groups, and
//! read accessors over them.
//!
//! Lengths and coordinates are carried as the bit patterns of IEEE-754
//! binary32 numbers.

use vstd::prelude::*;

use crate::canonical::texts_of;
use crate::capabilities::{write_found, written_value, LuminateCapabilitySet, CapabilitySet};
use crate::collections::opt_text;
use crate::management::string_at;
use crate::policy::{drop_value, opt_str, set_text_at};

verus! {

/// A surface's shape. `length`, `width` and `height` are binary32 bits.
#[derive(Debug, Clone, Copy, PartialEq, Eq, Structural)]
pub enum SurfaceKind {
    Opaque,
    Zone,
    Linear { length: u32 },
    Sparse2d { width: u32, height: u32 },
    Matrix { rows: u16, cols: u16 },
}

/// An element's role within its surface.
#[derive(Debug, Clone, Copy, PartialEq, Eq, Structural)]
pub enum ElementKind {
    Key,
    Led,
    Zone,
    Logo,
    RingSegment,
}

/// Where an element sits on its surface; coordinates are binary32 bits.
#[derive(Debug, Clone, Copy, PartialEq, Eq, Structural)]
pub enum ElementGeometry {
    Rect { x: u32, y: u32, w: u32, h: u32 },
    Point { x: u32, y: u32 },
    Linear { position: u32 },
    MatrixCell { row: u16, col: u16 },
}

/// A rectangle handed to C (binary32 bits).
#[derive(Debug, Clone, Copy, PartialEq, Eq, Structural)]
pub struct LuminateRect {
    pub x: u32,
    pub y: u32,
    pub width: u32,
    pub height: u32,
}

/// A point handed to C (binary32 bits).
#[derive(Debug, Clone, Copy, PartialEq, Eq, Structural)]
pub struct LuminatePoint {
    pub x: u32,
    pub y: u32,
}

/// A matrix cell or matrix size handed to C.
#[derive(Debug, Clone, Copy, PartialEq, Eq, Structural)]
pub struct LuminateMatrixCell {
    pub row: u16,
    pub column: u16,
}

/// One addressable light element.
#[derive(Debug, PartialEq)]
pub struct LuminateElement {
    pub id: String,
    pub name: Option<String>,
    pub kind: ElementKind,
    pub geometry: Option<ElementGeometry>,
    pub capabilities: CapabilitySet,
    pub physical_tags: Vec<String>,
    pub notes: Vec<String>,
    pub warnings: Vec<String>,
}

pub type Element = LuminateElement;

/// One lighting surface of a device.
#[derive(Debug, PartialEq)]
pub struct LuminateSurface {
    pub id: String,
    pub name: String,
    pub kind: SurfaceKind,
    pub elements: Vec<Element>,
    pub capabilities: CapabilitySet,
    pub physical_tags: Vec<String>,
    pub notes: Vec<String>,
    pub warnings: Vec<String>,
}

pub type Surface = LuminateSurface;

/// A member of a group.
#[derive(Debug, PartialEq)]
pub enum LuminateGroupMember {
    Surface(String),
    Element { surface: String, element: String },
    Group(String),
}

pub type GroupMember = LuminateGroupMember;

/// A named group of surfaces, elements and groups of a device; `kind` is a
/// `LUMINATE_GROUP_*` code.
#[derive(Debug, PartialEq)]
pub struct LuminateGroup {
    pub id: String,
    pub name: String,
    pub description: Option<String>,
    pub kind: u32,
    pub members: Vec<GroupMember>,
    pub capabilities: CapabilitySet,
    pub notes: Vec<String>,
    pub warnings: Vec<String>,
}

pub type Group = LuminateGroup;

/// A lighting device.
#[derive(Debug, PartialEq)]
pub struct LuminateDevice {
    pub id: String,
    pub name: String,
    pub vendor: Option<String>,
    pub model: Option<String>,
    pub provider_instance: Option<String>,
    pub category: Option<String>,
    pub host_attached: bool,
    pub surfaces: Vec<Surface>,
    pub groups: Vec<Group>,
    pub physical_tags: Vec<String>,
    pub notes: Vec<String>,
    pub warnings: Vec<String>,
    pub capabilities: CapabilitySet,
}

pub type Device = LuminateDevice;

/// An owned list of every device.
#[derive(Debug)]
pub struct LuminateTopologySnapshot(pub Vec<Device>);

/// An owned list of the ids of withdrawn devices with retained state.
#[derive(Debug)]
pub struct LuminateWithdrawnDeviceList(pub Vec<String>);

/// An owned single device.
#[derive(Debug)]
pub struct LuminateDeviceSnapshot(pub Device);

/// The borrowed view of an optional owned string.
pub fn optional_text(value: &Option<String>) -> (text: Option<&str>)
    ensures
        opt_str(text) == opt_text(*value),
{
    match value {
        Some(s) => Some(s.as_str()),
        None => None,
    }
}

/// The device's stable identifier.
pub fn luminate_device_id(v: Option<&LuminateDevice>) -> (text: Option<&str>)
    ensures
        opt_str(text) == match v { Some(x) => Some(x.id@), None => None::<Seq<char>> },
{
    match v {
        Some(x) => Some(x.id.as_str()),
        None => None,
    }
}

/// The device's display name.
pub fn luminate_device_name(v: Option<&LuminateDevice>) -> (text: Option<&str>)
    ensures
        opt_str(text) == match v { Some(x) => Some(x.name@), None => None::<Seq<char>> },
{
    match v {
        Some(x) => Some(x.name.as_str()),
        None => None,
    }
}

/// The vendor name, absent when unset.
pub fn luminate_device_vendor(v: Option<&LuminateDevice>) -> (text: Option<&str>)
    ensures
        opt_str(text) == match v { Some(x) => opt_text(x.vendor), None => None::<Seq<char>> },
{
    match v {
        Some(x) => optional_text(&x.vendor),
        None => None,
    }
}

/// The model name, absent when unset.
pub fn luminate_device_model(v: Option<&LuminateDevice>) -> (text: Option<&str>)
    ensures
        opt_str(text) == match v { Some(x) => opt_text(x.model), None => None::<Seq<char>> },
{
    match v {
        Some(x) => optional_text(&x.model),
        None => None,
    }
}

/// The provider instance responsible for the device, absent when unknown.
pub fn luminate_device_provider_instance(v: Option<&LuminateDevice>) -> (text: Option<&str>)
    ensures
        opt_str(text) == match v { Some(x) => opt_text(x.provider_instance), None => None::<Seq<char>> },
{
    match v {
        Some(x) => optional_text(&x.provider_instance),
        None => None,
    }
}

/// The device category, absent when unset.
pub fn luminate_device_category(v: Option<&LuminateDevice>) -> (text: Option<&str>)
    ensures
        opt_str(text) == match v { Some(x) => opt_text(x.category), None => None::<Seq<char>> },
{
    match v {
        Some(x) => optional_text(&x.category),
        None => None,
    }
}

/// Whether the device is attached to this host.
pub fn luminate_device_host_attached(v: Option<&LuminateDevice>) -> (flag: bool)
    ensures
        flag == (v matches Some(d) && d.host_attached),
{
    match v {
        Some(d) => d.host_attached,
        None => false,
    }
}

pub fn luminate_device_surface_count(v: Option<&LuminateDevice>) -> (count: usize)
    ensures
        count == match v { Some(x) => x.surfaces@.len(), None => 0 },
{
    match v {
        Some(x) => x.surfaces.len(),
        None => 0,
    }
}

/// Borrowed surface at `index`.
pub fn luminate_device_surface_at(v: Option<&LuminateDevice>, index: usize) -> (item: Option<&LuminateSurface>)
    ensures
        match v {
            Some(x) => if index < x.surfaces@.len() { item == Some(&x.surfaces@[index as int]) } else { item is None },
            None => item is None,
        },
{
    match v {
        Some(x) => if index < x.surfaces.len() { Some(&x.surfaces[index]) } else { None },
        None => None,
    }
}

pub fn luminate_device_group_count(v: Option<&LuminateDevice>) -> (count: usize)
    ensures
        count == match v { Some(x) => x.groups@.len(), None => 0 },
{
    match v {
        Some(x) => x.groups.len(),
        None => 0,
    }
}

/// Borrowed group at `index`.
pub fn luminate_device_group_at(v: Option<&LuminateDevice>, index: usize) -> (item: Option<&LuminateGroup>)
    ensures
        match v {
            Some(x) => if index < x.groups@.len() { item == Some(&x.groups@[index as int]) } else { item is None },
            None => item is None,
        },
{
    match v {
        Some(x) => if index < x.groups.len() { Some(&x.groups[index]) } else { None },
        None => None,
    }
}

pub fn luminate_device_physical_tag_count(v: Option<&LuminateDevice>) -> (count: usize)
    ensures
        count == match v { Some(x) => x.physical_tags@.len(), None => 0 },
{
    match v {
        Some(x) => x.physical_tags.len(),
        None => 0,
    }
}

/// Physical-form tag at `index`.
pub fn luminate_device_physical_tag_at(v: Option<&LuminateDevice>, index: usize) -> (text: Option<&str>)
    ensures
        opt_str(text) == match v { Some(x) => set_text_at(texts_of(x.physical_tags@), index), None => None::<Seq<char>> },
{
    match v {
        Some(x) => string_at(&x.physical_tags, index),
        None => None,
    }
}

pub fn luminate_device_note_count(v: Option<&LuminateDevice>) -> (count: usize)
    ensures
        count == match v { Some(x) => x.notes@.len(), None => 0 },
{
    match v {
        Some(x) => x.notes.len(),
        None => 0,
    }
}

/// Note at `index`.
pub fn luminate_device_note_at(v: Option<&LuminateDevice>, index: usize) -> (text: Option<&str>)
    ensures
        opt_str(text) == match v { Some(x) => set_text_at(texts_of(x.notes@), index), None => None::<Seq<char>> },
{
    match v {
        Some(x) => string_at(&x.notes, index),
        None => None,
    }
}

pub fn luminate_device_warning_count(v: Option<&LuminateDevice>) -> (count: usize)
    ensures
        count == match v { Some(x) => x.warnings@.len(), None => 0 },
{
    match v {
        Some(x) => x.warnings.len(),
        None => 0,
    }
}

/// Warning at `index`.
pub fn luminate_device_warning_at(v: Option<&LuminateDevice>, index: usize) -> (text: Option<&str>)
    ensures
        opt_str(text) == match v { Some(x) => set_text_at(texts_of(x.warnings@), index), None => None::<Seq<char>> },
{
    match v {
        Some(x) => string_at(&x.warnings, index),
        None => None,
    }
}

/// Borrowed capability set.
pub fn luminate_device_capabilities(v: Option<&LuminateDevice>) -> (c: Option<&LuminateCapabilitySet>)
    ensures
        c == match v { Some(x) => Some(&x.capabilities), None => None::<&LuminateCapabilitySet> },
{
    match v {
        Some(x) => Some(&x.capabilities),
        None => None,
    }
}

/// The surface's identifier within its device.
pub fn luminate_surface_id(v: Option<&LuminateSurface>) -> (text: Option<&str>)
    ensures
        opt_str(text) == match v { Some(x) => Some(x.id@), None => None::<Seq<char>> },
{
    match v {
        Some(x) => Some(x.id.as_str()),
        None => None,
    }
}

/// The surface's display name.
pub fn luminate_surface_name(v: Option<&LuminateSurface>) -> (text: Option<&str>)
    ensures
        opt_str(text) == match v { Some(x) => Some(x.name@), None => None::<Seq<char>> },
{
    match v {
        Some(x) => Some(x.name.as_str()),
        None => None,
    }
}

pub fn luminate_surface_element_count(v: Option<&LuminateSurface>) -> (count: usize)
    ensures
        count == match v { Some(x) => x.elements@.len(), None => 0 },
{
    match v {
        Some(x) => x.elements.len(),
        None => 0,
    }
}

/// Borrowed element at `index`.
pub fn luminate_surface_element_at(v: Option<&LuminateSurface>, index: usize) -> (item: Option<&LuminateElement>)
    ensures
        match v {
            Some(x) => if index < x.elements@.len() { item == Some(&x.elements@[index as int]) } else { item is None },
            None => item is None,
        },
{
    match v {
        Some(x) => if index < x.elements.len() { Some(&x.elements[index]) } else { None },
        None => None,
    }
}

pub fn luminate_surface_physical_tag_count(v: Option<&LuminateSurface>) -> (count: usize)
    ensures
        count == match v { Some(x) => x.physical_tags@.len(), None => 0 },
{
    match v {
        Some(x) => x.physical_tags.len(),
        None => 0,
    }
}

/// Physical-form tag at `index`.
pub fn luminate_surface_physical_tag_at(v: Option<&LuminateSurface>, index: usize) -> (text: Option<&str>)
    ensures
        opt_str(text) == match v { Some(x) => set_text_at(texts_of(x.physical_tags@), index), None => None::<Seq<char>> },
{
    match v {
        Some(x) => string_at(&x.physical_tags, index),
        None => None,
    }
}

pub fn luminate_surface_note_count(v: Option<&LuminateSurface>) -> (count: usize)
    ensures
        count == match v { Some(x) => x.notes@.len(), None => 0 },
{
    match v {
        Some(x) => x.notes.len(),
        None => 0,
    }
}

/// Note at `index`.
pub fn luminate_surface_note_at(v: Option<&LuminateSurface>, index: usize) -> (text: Option<&str>)
    ensures
        opt_str(text) == match v { Some(x) => set_text_at(texts_of(x.notes@), index), None => None::<Seq<char>> },
{
    match v {
        Some(x) => string_at(&x.notes, index),
        None => None,
    }
}

pub fn luminate_surface_warning_count(v: Option<&LuminateSurface>) -> (count: usize)
    ensures
        count == match v { Some(x) => x.warnings@.len(), None => 0 },
{
    match v {
        Some(x) => x.warnings.len(),
        None => 0,
    }
}

/// Warning at `index`.
pub fn luminate_surface_warning_at(v: Option<&LuminateSurface>, index: usize) -> (text: Option<&str>)
    ensures
        opt_str(text) == match v { Some(x) => set_text_at(texts_of(x.warnings@), index), None => None::<Seq<char>> },
{
    match v {
        Some(x) => string_at(&x.warnings, index),
        None => None,
    }
}

/// Borrowed capability set.
pub fn luminate_surface_capabilities(v: Option<&LuminateSurface>) -> (c: Option<&LuminateCapabilitySet>)
    ensures
        c == match v { Some(x) => Some(&x.capabilities), None => None::<&LuminateCapabilitySet> },
{
    match v {
        Some(x) => Some(&x.capabilities),
        None => None,
    }
}

/// The element's identifier within its surface.
pub fn luminate_element_id(v: Option<&LuminateElement>) -> (text: Option<&str>)
    ensures
        opt_str(text) == match v { Some(x) => Some(x.id@), None => None::<Seq<char>> },
{
    match v {
        Some(x) => Some(x.id.as_str()),
        None => None,
    }
}

/// The element's display name, absent when unset.
pub fn luminate_element_name(v: Option<&LuminateElement>) -> (text: Option<&str>)
    ensures
        opt_str(text) == match v { Some(x) => opt_text(x.name), None => None::<Seq<char>> },
{
    match v {
        Some(x) => optional_text(&x.name),
        None => None,
    }
}

/// Borrowed capability set.
pub fn luminate_element_capabilities(v: Option<&LuminateElement>) -> (c: Option<&LuminateCapabilitySet>)
    ensures
        c == match v { Some(x) => Some(&x.capabilities), None => None::<&LuminateCapabilitySet> },
{
    match v {
        Some(x) => Some(&x.capabilities),
        None => None,
    }
}

pub fn luminate_element_physical_tag_count(v: Option<&LuminateElement>) -> (count: usize)
    ensures
        count == match v { Some(x) => x.physical_tags@.len(), None => 0 },
{
    match v {
        Some(x) => x.physical_tags.len(),
        None => 0,
    }
}

/// Physical-form tag at `index`.
pub fn luminate_element_physical_tag_at(v: Option<&LuminateElement>, index: usize) -> (text: Option<&str>)
    ensures
        opt_str(text) == match v { Some(x) => set_text_at(texts_of(x.physical_tags@), index), None => None::<Seq<char>> },
{
    match v {
        Some(x) => string_at(&x.physical_tags, index),
        None => None,
    }
}

pub fn luminate_element_note_count(v: Option<&LuminateElement>) -> (count: usize)
    ensures
        count == match v { Some(x) => x.notes@.len(), None => 0 },
{
    match v {
        Some(x) => x.notes.len(),
        None => 0,
    }
}

/// Note at `index`.
pub fn luminate_element_note_at(v: Option<&LuminateElement>, index: usize) -> (text: Option<&str>)
    ensures
        opt_str(text) == match v { Some(x) => set_text_at(texts_of(x.notes@), index), None => None::<Seq<char>> },
{
    match v {
        Some(x) => string_at(&x.notes, index),
        None => None,
    }
}

pub fn luminate_element_warning_count(v: Option<&LuminateElement>) -> (count: usize)
    ensures
        count == match v { Some(x) => x.warnings@.len(), None => 0 },
{
    match v {
        Some(x) => x.warnings.len(),
        None => 0,
    }
}

/// Warning at `index`.
pub fn luminate_element_warning_at(v: Option<&LuminateElement>, index: usize) -> (text: Option<&str>)
    ensures
        opt_str(text) == match v { Some(x) => set_text_at(texts_of(x.warnings@), index), None => None::<Seq<char>> },
{
    match v {
        Some(x) => string_at(&x.warnings, index),
        None => None,
    }
}

/// The group's identifier within its device.
pub fn luminate_group_id(v: Option<&LuminateGroup>) -> (text: Option<&str>)
    ensures
        opt_str(text) == match v { Some(x) => Some(x.id@), None => None::<Seq<char>> },
{
    match v {
        Some(x) => Some(x.id.as_str()),
        None => None,
    }
}

/// The group's display name.
pub fn luminate_group_name(v: Option<&LuminateGroup>) -> (text: Option<&str>)
    ensures
        opt_str(text) == match v { Some(x) => Some(x.name@), None => None::<Seq<char>> },
{
    match v {
        Some(x) => Some(x.name.as_str()),
        None => None,
    }
}

/// The group's description, absent when unset.
pub fn luminate_group_description(v: Option<&LuminateGroup>) -> (text: Option<&str>)
    ensures
        opt_str(text) == match v { Some(x) => opt_text(x.description), None => None::<Seq<char>> },
{
    match v {
        Some(x) => optional_text(&x.description),
        None => None,
    }
}

pub fn luminate_group_member_count(v: Option<&LuminateGroup>) -> (count: usize)
    ensures
        count == match v { Some(x) => x.members@.len(), None => 0 },
{
    match v {
        Some(x) => x.members.len(),
        None => 0,
    }
}

/// Borrowed member at `index`.
pub fn luminate_group_member_at(v: Option<&LuminateGroup>, index: usize) -> (item: Option<&LuminateGroupMember>)
    ensures
        match v {
            Some(x) => if index < x.members@.len() { item == Some(&x.members@[index as int]) } else { item is None },
            None => item is None,
        },
{
    match v {
        Some(x) => if index < x.members.len() { Some(&x.members[index]) } else { None },
        None => None,
    }
}

/// Borrowed capability set.
pub fn luminate_group_capabilities(v: Option<&LuminateGroup>) -> (c: Option<&LuminateCapabilitySet>)
    ensures
        c == match v { Some(x) => Some(&x.capabilities), None => None::<&LuminateCapabilitySet> },
{
    match v {
        Some(x) => Some(&x.capabilities),
        None => None,
    }
}

pub fn luminate_group_note_count(v: Option<&LuminateGroup>) -> (count: usize)
    ensures
        count == match v { Some(x) => x.notes@.len(), None => 0 },
{
    match v {
        Some(x) => x.notes.len(),
        None => 0,
    }
}

/// Note at `index`.
pub fn luminate_group_note_at(v: Option<&LuminateGroup>, index: usize) -> (text: Option<&str>)
    ensures
        opt_str(text) == match v { Some(x) => set_text_at(texts_of(x.notes@), index), None => None::<Seq<char>> },
{
    match v {
        Some(x) => string_at(&x.notes, index),
        None => None,
    }
}

pub fn luminate_group_warning_count(v: Option<&LuminateGroup>) -> (count: usize)
    ensures
        count == match v { Some(x) => x.warnings@.len(), None => 0 },
{
    match v {
        Some(x) => x.warnings.len(),
        None => 0,
    }
}

/// Warning at `index`.
pub fn luminate_group_warning_at(v: Option<&LuminateGroup>, index: usize) -> (text: Option<&str>)
    ensures
        opt_str(text) == match v { Some(x) => set_text_at(texts_of(x.warnings@), index), None => None::<Seq<char>> },
{
    match v {
        Some(x) => string_at(&x.warnings, index),
        None => None,
    }
}

/// The C surface-shape codes are fixed: opaque 0, zone 1, linear 2, sparse
/// two-dimensional 3, matrix 4.
pub proof fn lemma_surface_kind_code_table(kind: SurfaceKind)
    ensures
        kind is Opaque ==> surface_kind_code(kind) == 0,
        kind is Zone ==> surface_kind_code(kind) == 1,
        kind is Linear ==> surface_kind_code(kind) == 2,
        kind is Sparse2d ==> surface_kind_code(kind) == 3,
        kind is Matrix ==> surface_kind_code(kind) == 4,
{
}

/// The `LUMINATE_SURFACE_*` code of a surface shape.
pub open spec fn surface_kind_code(kind: SurfaceKind) -> u32 {
    match kind {
        SurfaceKind::Opaque => 0,
        SurfaceKind::Zone => 1,
        SurfaceKind::Linear { .. } => 2,
        SurfaceKind::Sparse2d { .. } => 3,
        SurfaceKind::Matrix { .. } => 4,
    }
}

pub fn luminate_surface_kind(v: Option<&LuminateSurface>) -> (code: u32)
    ensures
        code == match v { Some(s) => surface_kind_code(s.kind), None => 0xffff_ffffu32 },
{
    match v {
        Some(s) => match s.kind {
            SurfaceKind::Opaque => 0,
            SurfaceKind::Zone => 1,
            SurfaceKind::Linear { .. } => 2,
            SurfaceKind::Sparse2d { .. } => 3,
            SurfaceKind::Matrix { .. } => 4,
        },
        None => 0xffff_ffff,
    }
}

/// The length of a linear surface.
pub open spec fn linear_length(v: Option<&LuminateSurface>) -> Option<u32> {
    match v {
        Some(s) => match s.kind {
            SurfaceKind::Linear { length } => Some(length),
            _ => None,
        },
        None => None,
    }
}

/// Writes the length (binary32 bits) of a linear surface.
pub fn luminate_surface_linear_length(v: Option<&LuminateSurface>, out_length: Option<&mut u32>) -> (written: bool)
    ensures
        written == (linear_length(v) is Some && out_length is Some),
        out_length matches Some(o) ==> *final(o) == written_value(linear_length(v), *o),
{
    let found = match v {
        Some(s) => match s.kind {
            SurfaceKind::Linear { length } => Some(length),
            _ => None,
        },
        None => None,
    };
    write_found(found, out_length)
}

/// The size of a sparse two-dimensional surface.
pub open spec fn sparse_size(v: Option<&LuminateSurface>) -> Option<LuminatePoint> {
    match v {
        Some(s) => match s.kind {
            SurfaceKind::Sparse2d { width, height } => Some(LuminatePoint { x: width, y: height }),
            _ => None,
        },
        None => None,
    }
}

/// Writes the width and height of a sparse two-dimensional surface.
pub fn luminate_surface_sparse_size(v: Option<&LuminateSurface>, out_size: Option<&mut LuminatePoint>) -> (written: bool)
    ensures
        written == (sparse_size(v) is Some && out_size is Some),
        out_size matches Some(o) ==> *final(o) == written_value(sparse_size(v), *o),
{
    let found = match v {
        Some(s) => match s.kind {
            SurfaceKind::Sparse2d { width, height } => Some(LuminatePoint { x: width, y: height }),
            _ => None,
        },
        None => None,
    };
    write_found(found, out_size)
}

/// The row and column counts of a matrix surface.
pub open spec fn matrix_size(v: Option<&LuminateSurface>) -> Option<LuminateMatrixCell> {
    match v {
        Some(s) => match s.kind {
            SurfaceKind::Matrix { rows, cols } => Some(LuminateMatrixCell { row: rows, column: cols }),
            _ => None,
        },
        None => None,
    }
}

/// Writes the row and column counts of a matrix surface.
pub fn luminate_surface_matrix_size(v: Option<&LuminateSurface>, out_size: Option<&mut LuminateMatrixCell>) -> (written: bool)
    ensures
        written == (matrix_size(v) is Some && out_size is Some),
        out_size matches Some(o) ==> *final(o) == written_value(matrix_size(v), *o),
{
    let found = match v {
        Some(s) => match s.kind {
            SurfaceKind::Matrix { rows, cols } => Some(LuminateMatrixCell { row: rows, column: cols }),
            _ => None,
        },
        None => None,
    };
    write_found(found, out_size)
}

/// The C element-role codes are fixed: key 0, LED 1, zone 2, logo 3, ring
/// segment 4.
pub proof fn lemma_element_kind_code_table(kind: ElementKind)
    ensures
        kind is Key ==> element_kind_code(kind) == 0,
        kind is Led ==> element_kind_code(kind) == 1,
        kind is Zone ==> element_kind_code(kind) == 2,
        kind is Logo ==> element_kind_code(kind) == 3,
        kind is RingSegment ==> element_kind_code(kind) == 4,
{
}

/// The `LUMINATE_ELEMENT_*` code of an element role.
pub open spec fn element_kind_code(kind: ElementKind) -> u32 {
    match kind {
        ElementKind::Key => 0,
        ElementKind::Led => 1,
        ElementKind::Zone => 2,
        ElementKind::Logo => 3,
        ElementKind::RingSegment => 4,
    }
}

pub fn luminate_element_kind(v: Option<&LuminateElement>) -> (code: u32)
    ensures
        code == match v { Some(e) => element_kind_code(e.kind), None => 0xffff_ffffu32 },
{
    match v {
        Some(e) => match e.kind {
            ElementKind::Key => 0,
            ElementKind::Led => 1,
            ElementKind::Zone => 2,
            ElementKind::Logo => 3,
            ElementKind::RingSegment => 4,
        },
        None => 0xffff_ffff,
    }
}

/// The C geometry codes are fixed: absent 0, rectangle 1, point 2, linear
/// position 3, matrix cell 4.
pub proof fn lemma_geometry_code_table(geometry: Option<ElementGeometry>)
    ensures
        geometry is None ==> geometry_code(geometry) == 0,
        geometry matches Some(g) && g is Rect ==> geometry_code(geometry) == 1,
        geometry matches Some(g) && g is Point ==> geometry_code(geometry) == 2,
        geometry matches Some(g) && g is Linear ==> geometry_code(geometry) == 3,
        geometry matches Some(g) && g is MatrixCell ==> geometry_code(geometry) == 4,
{
}

/// The `LUMINATE_GEOMETRY_*` code of an optional geometry; 0 when absent.
pub open spec fn geometry_code(geometry: Option<ElementGeometry>) -> u32 {
    match geometry {
        None => 0,
        Some(ElementGeometry::Rect { .. }) => 1,
        Some(ElementGeometry::Point { .. }) => 2,
        Some(ElementGeometry::Linear { .. }) => 3,
        Some(ElementGeometry::MatrixCell { .. }) => 4,
    }
}

pub fn luminate_element_geometry_kind(v: Option<&LuminateElement>) -> (code: u32)
    ensures
        code == match v { Some(e) => geometry_code(e.geometry), None => 0xffff_ffffu32 },
{
    match v {
        Some(e) => match e.geometry {
            None => 0,
            Some(ElementGeometry::Rect { .. }) => 1,
            Some(ElementGeometry::Point { .. }) => 2,
            Some(ElementGeometry::Linear { .. }) => 3,
            Some(ElementGeometry::MatrixCell { .. }) => 4,
        },
        None => 0xffff_ffff,
    }
}

/// The rectangle of an element with rectangle geometry.
pub open spec fn element_rect(v: Option<&LuminateElement>) -> Option<LuminateRect> {
    match v {
        Some(e) => match e.geometry {
            Some(ElementGeometry::Rect { x, y, w, h }) => Some(LuminateRect { x, y, width: w, height: h }),
            _ => None,
        },
        None => None,
    }
}

pub fn luminate_element_geometry_rect(v: Option<&LuminateElement>, out_rect: Option<&mut LuminateRect>) -> (written: bool)
    ensures
        written == (element_rect(v) is Some && out_rect is Some),
        out_rect matches Some(o) ==> *final(o) == written_value(element_rect(v), *o),
{
    let found = match v {
        Some(e) => match e.geometry {
            Some(ElementGeometry::Rect { x, y, w, h }) => Some(LuminateRect { x, y, width: w, height: h }),
            _ => None,
        },
        None => None,
    };
    write_found(found, out_rect)
}

/// The point of an element with point geometry.
pub open spec fn element_point(v: Option<&LuminateElement>) -> Option<LuminatePoint> {
    match v {
        Some(e) => match e.geometry {
            Some(ElementGeometry::Point { x, y }) => Some(LuminatePoint { x, y }),
            _ => None,
        },
        None => None,
    }
}

pub fn luminate_element_geometry_point(v: Option<&LuminateElement>, out_point: Option<&mut LuminatePoint>) -> (written: bool)
    ensures
        written == (element_point(v) is Some && out_point is Some),
        out_point matches Some(o) ==> *final(o) == written_value(element_point(v), *o),
{
    let found = match v {
        Some(e) => match e.geometry {
            Some(ElementGeometry::Point { x, y }) => Some(LuminatePoint { x, y }),
            _ => None,
        },
        None => None,
    };
    write_found(found, out_point)
}

/// The position of an element with linear geometry.
pub open spec fn element_position(v: Option<&LuminateElement>) -> Option<u32> {
    match v {
        Some(e) => match e.geometry {
            Some(ElementGeometry::Linear { position }) => Some(position),
            _ => None,
        },
        None => None,
    }
}

pub fn luminate_element_geometry_linear(v: Option<&LuminateElement>, out_position: Option<&mut u32>) -> (written: bool)
    ensures
        written == (element_position(v) is Some && out_position is Some),
        out_position matches Some(o) ==> *final(o) == written_value(element_position(v), *o),
{
    let found = match v {
        Some(e) => match e.geometry {
            Some(ElementGeometry::Linear { position }) => Some(position),
            _ => None,
        },
        None => None,
    };
    write_found(found, out_position)
}

/// The cell of an element with matrix-cell geometry.
pub open spec fn element_cell(v: Option<&LuminateElement>) -> Option<LuminateMatrixCell> {
    match v {
        Some(e) => match e.geometry {
            Some(ElementGeometry::MatrixCell { row, col }) => Some(LuminateMatrixCell { row, column: col }),
            _ => None,
        },
        None => None,
    }
}

pub fn luminate_element_geometry_matrix_cell(v: Option<&LuminateElement>, out_cell: Option<&mut LuminateMatrixCell>) -> (written: bool)
    ensures
        written == (element_cell(v) is Some && out_cell is Some),
        out_cell matches Some(o) ==> *final(o) == written_value(element_cell(v), *o),
{
    let found = match v {
        Some(e) => match e.geometry {
            Some(ElementGeometry::MatrixCell { row, col }) => Some(LuminateMatrixCell { row, column: col }),
            _ => None,
        },
        None => None,
    };
    write_found(found, out_cell)
}

/// The group kind code, or the invalid code for null.
pub fn luminate_group_kind(v: Option<&LuminateGroup>) -> (code: u32)
    ensures
        code == match v { Some(g) => g.kind, None => 0xffff_ffffu32 },
{
    match v {
        Some(g) => g.kind,
        None => 0xffff_ffff,
    }
}

/// 0 for a surface member, 1 for an element, 2 for a group.
pub fn luminate_group_member_kind(v: Option<&LuminateGroupMember>) -> (code: u32)
    ensures
        code == match v {
            Some(GroupMember::Surface(_)) => 0u32,
            Some(GroupMember::Element { .. }) => 1u32,
            Some(GroupMember::Group(_)) => 2u32,
            None => 0xffff_ffffu32,
        },
{
    match v {
        Some(GroupMember::Surface(_)) => 0,
        Some(GroupMember::Element { .. }) => 1,
        Some(GroupMember::Group(_)) => 2,
        None => 0xffff_ffff,
    }
}

/// The surface a surface or element member refers to.
pub fn luminate_group_member_surface_id(v: Option<&LuminateGroupMember>) -> (text: Option<&str>)
    ensures
        opt_str(text) == match v {
            Some(GroupMember::Surface(s)) => Some(s@),
            Some(GroupMember::Element { surface, .. }) => Some(surface@),
            _ => None::<Seq<char>>,
        },
{
    match v {
        Some(GroupMember::Surface(s)) => Some(s.as_str()),
        Some(GroupMember::Element { surface, .. }) => Some(surface.as_str()),
        _ => None,
    }
}

/// The element an element member refers to.
pub fn luminate_group_member_element_id(v: Option<&LuminateGroupMember>) -> (text: Option<&str>)
    ensures
        opt_str(text) == match v { Some(GroupMember::Element { element, .. }) => Some(element@), _ => None::<Seq<char>> },
{
    match v {
        Some(GroupMember::Element { element, .. }) => Some(element.as_str()),
        _ => None,
    }
}

/// The group a group member refers to.
pub fn luminate_group_member_group_id(v: Option<&LuminateGroupMember>) -> (text: Option<&str>)
    ensures
        opt_str(text) == match v { Some(GroupMember::Group(g)) => Some(g@), _ => None::<Seq<char>> },
{
    match v {
        Some(GroupMember::Group(g)) => Some(g.as_str()),
        _ => None,
    }
}

pub fn luminate_topology_snapshot_device_count(v: Option<&LuminateTopologySnapshot>) -> (count: usize)
    ensures
        count == match v { Some(t) => t.0@.len(), None => 0 },
{
    match v {
        Some(t) => t.0.len(),
        None => 0,
    }
}

/// Borrowed device at `i`.
pub fn luminate_topology_snapshot_device_at(v: Option<&LuminateTopologySnapshot>, i: usize) -> (d: Option<&LuminateDevice>)
    ensures
        match v {
            Some(t) => if i < t.0@.len() { d == Some(&t.0@[i as int]) } else { d is None },
            None => d is None,
        },
{
    match v {
        Some(t) => if i < t.0.len() { Some(&t.0[i]) } else { None },
        None => None,
    }
}

pub fn luminate_withdrawn_device_list_count(v: Option<&LuminateWithdrawnDeviceList>) -> (count: usize)
    ensures
        count == match v { Some(l) => l.0@.len(), None => 0 },
{
    match v {
        Some(l) => l.0.len(),
        None => 0,
    }
}

/// Withdrawn device id at `index`.
pub fn luminate_withdrawn_device_list_at(v: Option<&LuminateWithdrawnDeviceList>, index: usize) -> (text: Option<&str>)
    ensures
        opt_str(text) == match v { Some(l) => set_text_at(texts_of(l.0@), index), None => None::<Seq<char>> },
{
    match v {
        Some(l) => string_at(&l.0, index),
        None => None,
    }
}

/// The device held by a snapshot.
pub fn luminate_device_snapshot_device(v: Option<&LuminateDeviceSnapshot>) -> (d: Option<&LuminateDevice>)
    ensures
        d == match v { Some(s) => Some(&s.0), None => None::<&LuminateDevice> },
{
    match v {
        Some(s) => Some(&s.0),
        None => None,
    }
}

/// Releases a topology snapshot. Null is a no-op.
pub fn luminate_topology_snapshot_free(value: Option<Box<LuminateTopologySnapshot>>) {
    drop_value(value);
}

/// Releases a withdrawn device list. Null is a no-op.
pub fn luminate_withdrawn_device_list_free(value: Option<Box<LuminateWithdrawnDeviceList>>) {
    drop_value(value);
}

/// Releases a device snapshot. Null is a no-op.
pub fn luminate_device_snapshot_free(value: Option<Box<LuminateDeviceSnapshot>>) {
    drop_value(value);
}

} // verus!

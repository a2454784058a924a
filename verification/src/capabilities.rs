//! Capability sets advertised by devices, surfaces, elements and groups, and
//! their read accessors.
//!
//! Classifications that the C API reports as plain codes (scopes, update and
//! buffering modes, persistence requirements, facets, fidelities) are held as
//! those codes.

use vstd::prelude::*;

use crate::canonical::texts_of;
use crate::colour::LuminateColourCapability;
use crate::effects::{direction_code, EffectDirection};
use crate::management::{cct_emulation_code, cct_emulation_to_u32, CctEmulation};
use crate::policy::{opt_str, set_text_at};

verus! {

/// The code that accessors return for an absent or null value.
pub const LUMINATE_DISCRIMINANT_INVALID: u32 = 0xffff_ffff;

/// The value written through an output by a lookup: the found value, or the
/// output's previous value when nothing was found.
pub open spec fn written_value<T>(found: Option<T>, before: T) -> T {
    match found {
        Some(v) => v,
        None => before,
    }
}

/// Writes a found value through an optional output; reports whether it
/// wrote.
pub fn write_found<T: Copy>(found: Option<T>, out: Option<&mut T>) -> (written: bool)
    ensures
        written == (found is Some && out is Some),
        out matches Some(o) ==> *final(o) == written_value(found, *o),
{
    match (found, out) {
        (Some(value), Some(o)) => {
            *o = value;
            true
        },
        _ => false,
    }
}

/// Whether brightness can be set independently of colour.
#[derive(Debug, Clone, Copy, PartialEq, Eq, Structural)]
pub enum BrightnessCapability {
    Absent,
    /// `scope` is a `LUMINATE_SCOPE_*` code.
    Independent { bits: u8, maximum: u32, scope: u32 },
}

/// What a device retains across power cycles. `requirement` is a
/// `LUMINATE_PERSISTENCE_REQUIREMENT_*` code.
#[derive(Debug, Clone, Copy, PartialEq, Eq, Structural)]
pub enum PersistenceCapability {
    Volatile,
    CurrentState { requirement: u32, explicit_commit: bool, readback: bool },
    Profiles { slots: u16, requirement: u32, explicit_commit: bool, readback: bool },
}

/// One facet of state that can be read back, with how trustworthy the
/// reading is (both as C codes).
#[derive(Debug, Clone, Copy, PartialEq, Eq, Structural)]
pub struct LuminateReadableFacet {
    pub facet: u32,
    pub fidelity: u32,
}

pub type ReadableFacet = LuminateReadableFacet;

/// Whether device state can be read back.
#[derive(Debug, PartialEq)]
pub enum StateReadbackCapability {
    Unreadable,
    Readable { facets: Vec<ReadableFacet>, read_disturbs_output: bool, notifies_external_changes: bool },
}

/// The layout of a shared-memory pixel buffer.
#[derive(Debug, Clone, Copy, PartialEq, Eq, Structural)]
pub enum ShmFrameShape {
    Linear { pixel_count: u32 },
    Matrix { width: u32, height: u32 },
}

/// The number of pixels a buffer shape holds, when representable.
pub open spec fn shape_pixel_count(shape: ShmFrameShape) -> Option<u32> {
    match shape {
        ShmFrameShape::Linear { pixel_count } => Some(pixel_count),
        ShmFrameShape::Matrix { width, height } => if width * height <= u32::MAX {
            Some((width * height) as u32)
        } else {
            None
        },
    }
}

/// The shared-memory fast path of frame upload. Pixel formats are
/// `LUMINATE_SHM_PIXEL_FORMAT_*` codes.
#[derive(Debug, PartialEq)]
pub struct LuminateShmFrameCapability {
    pub pixel_formats: Vec<u32>,
    pub shape: ShmFrameShape,
    pub max_rate_hz: Option<u16>,
}

pub type ShmFrameCapability = LuminateShmFrameCapability;

/// How frames can be uploaded. `scope`, `update_mode` and `buffering` are
/// C codes.
#[derive(Debug, PartialEq)]
pub struct LuminateFrameUploadCapability {
    pub scope: u32,
    pub update_mode: u32,
    pub max_rate_hz: Option<u16>,
    pub atomic: bool,
    pub buffering: u32,
    pub shm: Option<ShmFrameCapability>,
}

pub type FrameUploadCapability = LuminateFrameUploadCapability;

/// An inclusive stepped range.
#[derive(Debug, Clone, Copy, PartialEq, Eq, Structural)]
pub struct LuminateU16Range {
    pub minimum: u16,
    pub maximum: u16,
    pub step: u16,
}

/// An inclusive stepped range.
#[derive(Debug, Clone, Copy, PartialEq, Eq, Structural)]
pub struct LuminateU32Range {
    pub minimum: u32,
    pub maximum: u32,
    pub step: u32,
}

/// One option of a choice parameter.
#[derive(Debug, PartialEq)]
pub struct LuminateEffectChoice {
    pub id: String,
    pub name: String,
}

pub type EffectChoice = LuminateEffectChoice;

/// One configurable parameter of a hardware effect.
#[derive(Debug, PartialEq)]
pub enum LuminateEffectParameter {
    Colour { minimum_colours: u8, maximum_colours: u8 },
    Speed { range: LuminateU16Range },
    Direction { values: Vec<EffectDirection> },
    Duration { milliseconds: LuminateU32Range },
    Brightness { bits: u8 },
    Choice { options: Vec<EffectChoice> },
}

pub type EffectParameter = LuminateEffectParameter;

/// A hardware-driven effect a device advertises.
#[derive(Debug, PartialEq)]
pub struct LuminateHardwareEffectDescriptor {
    pub id: String,
    pub name: String,
    pub parameters: Vec<EffectParameter>,
}

pub type HardwareEffectDescriptor = LuminateHardwareEffectDescriptor;

/// The hardware effects a target offers; `scope` is a C code.
#[derive(Debug, PartialEq)]
pub struct LuminateHardwareEffectsCapability {
    pub effects: Vec<HardwareEffectDescriptor>,
    pub scope: u32,
    pub concurrent_with_streaming: bool,
}

pub type HardwareEffectsCapability = LuminateHardwareEffectsCapability;

/// Physical power control; `scope` is a C code.
#[derive(Debug, Clone, Copy, PartialEq, Eq, Structural)]
pub struct LuminatePhysicalPowerCapability {
    pub scope: u32,
}

pub type PhysicalPowerCapability = LuminatePhysicalPowerCapability;

/// The power domain a target belongs to.
#[derive(Debug, PartialEq)]
pub enum LuminatePowerDomainRef {
    Device,
    Surface { surface: String },
}

pub type PowerDomainRef = LuminatePowerDomainRef;

/// Appearance operations a slot accepts.
#[derive(Debug, PartialEq)]
pub struct LuminateAppearanceCapability {
    pub colour: Vec<LuminateColourCapability>,
    pub cct_emulation: CctEmulation,
    pub hardware_effects: Option<HardwareEffectsCapability>,
}

pub type AppearanceCapability = LuminateAppearanceCapability;

/// One named appearance slot.
#[derive(Debug, PartialEq)]
pub struct LuminateAppearanceSlotDescriptor {
    pub id: String,
    pub name: String,
    pub appearance: AppearanceCapability,
    pub persistence: PersistenceCapability,
    pub notes: Vec<String>,
    pub warnings: Vec<String>,
}

pub type AppearanceSlotDescriptor = LuminateAppearanceSlotDescriptor;

/// The appearance slots a surface advertises; `update_policy` is a
/// `LUMINATE_APPEARANCE_SLOT_UPDATE_*` code.
#[derive(Debug, PartialEq)]
pub struct LuminateAppearanceSlotsCapability {
    pub slots: Vec<AppearanceSlotDescriptor>,
    pub update_policy: u32,
}

pub type AppearanceSlotsCapability = LuminateAppearanceSlotsCapability;

/// Everything a device, surface, element or group can do.
#[derive(Debug, PartialEq)]
pub struct LuminateCapabilitySet {
    pub colour: Vec<LuminateColourCapability>,
    pub emission: bool,
    pub off_is_wear_safe: bool,
    pub cct_emulation: CctEmulation,
    pub brightness: BrightnessCapability,
    pub frame_upload: Option<FrameUploadCapability>,
    pub hardware_effects: Option<HardwareEffectsCapability>,
    pub persistence: PersistenceCapability,
    pub state_readback: StateReadbackCapability,
    pub physical_power: Option<PhysicalPowerCapability>,
    pub power_domain: Option<PowerDomainRef>,
    pub appearance_slots: Option<AppearanceSlotsCapability>,
}

pub type CapabilitySet = LuminateCapabilitySet;

pub fn luminate_capability_set_colour_count(v: Option<&LuminateCapabilitySet>) -> (count: usize)
    ensures
        count == match v { Some(c) => c.colour@.len(), None => 0 },
{
    match v {
        Some(c) => c.colour.len(),
        None => 0,
    }
}

/// Borrowed colour capability at `index`.
pub fn luminate_capability_set_colour_at(v: Option<&LuminateCapabilitySet>, index: usize) -> (colour: Option<&LuminateColourCapability>)
    ensures
        match v {
            Some(c) => if index < c.colour@.len() { colour == Some(&c.colour@[index as int]) } else { colour is None },
            None => colour is None,
        },
{
    match v {
        Some(c) => if index < c.colour.len() { Some(&c.colour[index]) } else { None },
        None => None,
    }
}

pub fn luminate_capability_set_emission(v: Option<&LuminateCapabilitySet>) -> (flag: bool)
    ensures
        flag == (v matches Some(c) && c.emission),
{
    match v {
        Some(c) => c.emission,
        None => false,
    }
}

pub fn luminate_capability_set_off_is_wear_safe(v: Option<&LuminateCapabilitySet>) -> (flag: bool)
    ensures
        flag == (v matches Some(c) && c.off_is_wear_safe),
{
    match v {
        Some(c) => c.off_is_wear_safe,
        None => false,
    }
}

/// CCT emulation code, or the invalid code for null.
pub fn luminate_capability_set_cct_emulation(v: Option<&LuminateCapabilitySet>) -> (code: u32)
    ensures
        code == match v { Some(c) => cct_emulation_code(c.cct_emulation), None => LUMINATE_DISCRIMINANT_INVALID },
{
    match v {
        Some(c) => cct_emulation_to_u32(c.cct_emulation),
        None => LUMINATE_DISCRIMINANT_INVALID,
    }
}

/// 0 without independent brightness, 1 with it.
pub fn luminate_capability_set_brightness_kind(v: Option<&LuminateCapabilitySet>) -> (code: u32)
    ensures
        code == match v {
            Some(c) => if c.brightness is Absent { 0u32 } else { 1u32 },
            None => LUMINATE_DISCRIMINANT_INVALID,
        },
{
    match v {
        Some(c) => match c.brightness {
            BrightnessCapability::Absent => 0,
            BrightnessCapability::Independent { .. } => 1,
        },
        None => LUMINATE_DISCRIMINANT_INVALID,
    }
}

/// The independent-brightness capability of a set, if any.
pub open spec fn independent_brightness(v: Option<&LuminateCapabilitySet>) -> Option<(u8, u32, u32)> {
    match v {
        Some(c) => match c.brightness {
            BrightnessCapability::Independent { bits, maximum, scope } => Some((bits, maximum, scope)),
            BrightnessCapability::Absent => None,
        },
        None => None,
    }
}

fn brightness_of(v: Option<&LuminateCapabilitySet>) -> (found: Option<(u8, u32, u32)>)
    ensures
        found == independent_brightness(v),
{
    match v {
        Some(c) => match c.brightness {
            BrightnessCapability::Independent { bits, maximum, scope } => Some((bits, maximum, scope)),
            BrightnessCapability::Absent => None,
        },
        None => None,
    }
}

/// Writes the bit depth of independent brightness.
pub fn luminate_capability_set_brightness_bits(v: Option<&LuminateCapabilitySet>, out_bits: Option<&mut u8>) -> (written: bool)
    ensures
        written == (independent_brightness(v) is Some && out_bits is Some),
        out_bits matches Some(o) ==> *final(o) == written_value(
            match independent_brightness(v) { Some(b) => Some(b.0), None => None::<u8> }, *o),
{
    let found = match brightness_of(v) {
        Some(b) => Some(b.0),
        None => None,
    };
    write_found(found, out_bits)
}

/// Writes the maximum independent brightness value.
pub fn luminate_capability_set_brightness_maximum(v: Option<&LuminateCapabilitySet>, out_maximum: Option<&mut u32>) -> (written: bool)
    ensures
        written == (independent_brightness(v) is Some && out_maximum is Some),
        out_maximum matches Some(o) ==> *final(o) == written_value(
            match independent_brightness(v) { Some(b) => Some(b.1), None => None::<u32> }, *o),
{
    let found = match brightness_of(v) {
        Some(b) => Some(b.1),
        None => None,
    };
    write_found(found, out_maximum)
}

/// Writes the scope code of independent brightness.
pub fn luminate_capability_set_brightness_scope(v: Option<&LuminateCapabilitySet>, out_scope: Option<&mut u32>) -> (written: bool)
    ensures
        written == (independent_brightness(v) is Some && out_scope is Some),
        out_scope matches Some(o) ==> *final(o) == written_value(
            match independent_brightness(v) { Some(b) => Some(b.2), None => None::<u32> }, *o),
{
    let found = match brightness_of(v) {
        Some(b) => Some(b.2),
        None => None,
    };
    write_found(found, out_scope)
}

/// Borrowed frame-upload capability, absent when unsupported.
pub fn luminate_capability_set_frame_upload(v: Option<&LuminateCapabilitySet>) -> (f: Option<&LuminateFrameUploadCapability>)
    ensures
        match v {
            Some(c) => match c.frame_upload { Some(x) => f == Some(&x), None => f is None },
            None => f is None,
        },
{
    match v {
        Some(c) => match &c.frame_upload {
            Some(x) => Some(x),
            None => None,
        },
        None => None,
    }
}

/// Borrowed hardware-effects capability, absent when unsupported.
pub fn luminate_capability_set_hardware_effects(v: Option<&LuminateCapabilitySet>) -> (h: Option<&LuminateHardwareEffectsCapability>)
    ensures
        match v {
            Some(c) => match c.hardware_effects { Some(x) => h == Some(&x), None => h is None },
            None => h is None,
        },
{
    match v {
        Some(c) => match &c.hardware_effects {
            Some(x) => Some(x),
            None => None,
        },
        None => None,
    }
}

/// The C persistence codes are fixed: volatile 0, current state 1,
/// profiles 2.
pub proof fn lemma_persistence_code_table(p: PersistenceCapability)
    ensures
        p is Volatile ==> persistence_code(p) == 0,
        p is CurrentState ==> persistence_code(p) == 1,
        p is Profiles ==> persistence_code(p) == 2,
{
}

/// The `LUMINATE_PERSISTENCE_*` code of a persistence capability.
pub open spec fn persistence_code(p: PersistenceCapability) -> u32 {
    match p {
        PersistenceCapability::Volatile => 0,
        PersistenceCapability::CurrentState { .. } => 1,
        PersistenceCapability::Profiles { .. } => 2,
    }
}

pub fn persistence_kind(p: PersistenceCapability) -> (code: u32)
    ensures
        code == persistence_code(p),
{
    match p {
        PersistenceCapability::Volatile => 0,
        PersistenceCapability::CurrentState { .. } => 1,
        PersistenceCapability::Profiles { .. } => 2,
    }
}

pub fn luminate_capability_set_persistence_kind(v: Option<&LuminateCapabilitySet>) -> (code: u32)
    ensures
        code == match v { Some(c) => persistence_code(c.persistence), None => LUMINATE_DISCRIMINANT_INVALID },
{
    match v {
        Some(c) => persistence_kind(c.persistence),
        None => LUMINATE_DISCRIMINANT_INVALID,
    }
}

/// The requirement, explicit-commit and readback flags of a persisting set.
pub open spec fn persisted(v: Option<&LuminateCapabilitySet>) -> Option<(u32, bool, bool)> {
    match v {
        Some(c) => match c.persistence {
            PersistenceCapability::CurrentState { requirement, explicit_commit, readback } => Some((requirement, explicit_commit, readback)),
            PersistenceCapability::Profiles { requirement, explicit_commit, readback, .. } => Some((requirement, explicit_commit, readback)),
            PersistenceCapability::Volatile => None,
        },
        None => None,
    }
}

fn persisted_of(v: Option<&LuminateCapabilitySet>) -> (found: Option<(u32, bool, bool)>)
    ensures
        found == persisted(v),
{
    match v {
        Some(c) => match c.persistence {
            PersistenceCapability::CurrentState { requirement, explicit_commit, readback } => Some((requirement, explicit_commit, readback)),
            PersistenceCapability::Profiles { requirement, explicit_commit, readback, .. } => Some((requirement, explicit_commit, readback)),
            PersistenceCapability::Volatile => None,
        },
        None => None,
    }
}

pub fn luminate_capability_set_persistence_requirement(v: Option<&LuminateCapabilitySet>, out_requirement: Option<&mut u32>) -> (written: bool)
    ensures
        written == (persisted(v) is Some && out_requirement is Some),
        out_requirement matches Some(o) ==> *final(o) == written_value(
            match persisted(v) { Some(p) => Some(p.0), None => None::<u32> }, *o),
{
    let found = match persisted_of(v) {
        Some(p) => Some(p.0),
        None => None,
    };
    write_found(found, out_requirement)
}

/// The profile slot count of a profile-persisting set.
pub open spec fn profile_slots(v: Option<&LuminateCapabilitySet>) -> Option<u16> {
    match v {
        Some(c) => match c.persistence {
            PersistenceCapability::Profiles { slots, .. } => Some(slots),
            _ => None,
        },
        None => None,
    }
}

pub fn luminate_capability_set_persistence_slots(v: Option<&LuminateCapabilitySet>, out_slots: Option<&mut u16>) -> (written: bool)
    ensures
        written == (profile_slots(v) is Some && out_slots is Some),
        out_slots matches Some(o) ==> *final(o) == written_value(profile_slots(v), *o),
{
    let found = match v {
        Some(c) => match c.persistence {
            PersistenceCapability::Profiles { slots, .. } => Some(slots),
            _ => None,
        },
        None => None,
    };
    write_found(found, out_slots)
}

pub fn luminate_capability_set_persistence_explicit_commit(v: Option<&LuminateCapabilitySet>, out_explicit_commit: Option<&mut bool>) -> (written: bool)
    ensures
        written == (persisted(v) is Some && out_explicit_commit is Some),
        out_explicit_commit matches Some(o) ==> *final(o) == written_value(
            match persisted(v) { Some(p) => Some(p.1), None => None::<bool> }, *o),
{
    let found = match persisted_of(v) {
        Some(p) => Some(p.1),
        None => None,
    };
    write_found(found, out_explicit_commit)
}

pub fn luminate_capability_set_persistence_readback(v: Option<&LuminateCapabilitySet>, out_readback: Option<&mut bool>) -> (written: bool)
    ensures
        written == (persisted(v) is Some && out_readback is Some),
        out_readback matches Some(o) ==> *final(o) == written_value(
            match persisted(v) { Some(p) => Some(p.2), None => None::<bool> }, *o),
{
    let found = match persisted_of(v) {
        Some(p) => Some(p.2),
        None => None,
    };
    write_found(found, out_readback)
}

/// 0 when state cannot be read back, 1 when it can.
pub fn luminate_capability_set_state_readback_kind(v: Option<&LuminateCapabilitySet>) -> (code: u32)
    ensures
        code == match v {
            Some(c) => if c.state_readback is Unreadable { 0u32 } else { 1u32 },
            None => LUMINATE_DISCRIMINANT_INVALID,
        },
{
    match v {
        Some(c) => match &c.state_readback {
            StateReadbackCapability::Unreadable => 0,
            StateReadbackCapability::Readable { .. } => 1,
        },
        None => LUMINATE_DISCRIMINANT_INVALID,
    }
}

/// The readable facets of a set; empty when state is not readable.
pub open spec fn readable_facets(v: Option<&LuminateCapabilitySet>) -> Seq<ReadableFacet> {
    match v {
        Some(c) => match c.state_readback {
            StateReadbackCapability::Readable { facets, .. } => facets@,
            _ => Seq::empty(),
        },
        None => Seq::empty(),
    }
}

pub fn luminate_capability_set_readable_facet_count(v: Option<&LuminateCapabilitySet>) -> (count: usize)
    ensures
        count == readable_facets(v).len(),
{
    match v {
        Some(c) => match &c.state_readback {
            StateReadbackCapability::Readable { facets, .. } => facets.len(),
            _ => 0,
        },
        None => 0,
    }
}

/// Borrowed readable facet at `i`.
pub fn luminate_capability_set_readable_facet_at(v: Option<&LuminateCapabilitySet>, i: usize) -> (facet: Option<&LuminateReadableFacet>)
    ensures
        match facet {
            Some(f) => i < readable_facets(v).len() && *f == readable_facets(v)[i as int],
            None => i >= readable_facets(v).len(),
        },
{
    match v {
        Some(c) => match &c.state_readback {
            StateReadbackCapability::Readable { facets, .. } => if i < facets.len() { Some(&facets[i]) } else { None },
            _ => None,
        },
        None => None,
    }
}

pub fn luminate_capability_set_read_disturbs_output(v: Option<&LuminateCapabilitySet>) -> (flag: bool)
    ensures
        flag == (v matches Some(c) && c.state_readback matches StateReadbackCapability::Readable { read_disturbs_output, .. } && read_disturbs_output),
{
    match v {
        Some(c) => match &c.state_readback {
            StateReadbackCapability::Readable { read_disturbs_output, .. } => *read_disturbs_output,
            _ => false,
        },
        None => false,
    }
}

pub fn luminate_capability_set_notifies_external_changes(v: Option<&LuminateCapabilitySet>) -> (flag: bool)
    ensures
        flag == (v matches Some(c) && c.state_readback matches StateReadbackCapability::Readable { notifies_external_changes, .. } && notifies_external_changes),
{
    match v {
        Some(c) => match &c.state_readback {
            StateReadbackCapability::Readable { notifies_external_changes, .. } => *notifies_external_changes,
            _ => false,
        },
        None => false,
    }
}

/// Borrowed physical-power capability, absent when unsupported.
pub fn luminate_capability_set_physical_power(v: Option<&LuminateCapabilitySet>) -> (p: Option<&LuminatePhysicalPowerCapability>)
    ensures
        match v {
            Some(c) => match c.physical_power { Some(x) => p == Some(&x), None => p is None },
            None => p is None,
        },
{
    match v {
        Some(c) => match &c.physical_power {
            Some(x) => Some(x),
            None => None,
        },
        None => None,
    }
}

/// Borrowed power-domain reference, absent when unset.
pub fn luminate_capability_set_power_domain(v: Option<&LuminateCapabilitySet>) -> (p: Option<&LuminatePowerDomainRef>)
    ensures
        match v {
            Some(c) => match c.power_domain { Some(x) => p == Some(&x), None => p is None },
            None => p is None,
        },
{
    match v {
        Some(c) => match &c.power_domain {
            Some(x) => Some(x),
            None => None,
        },
        None => None,
    }
}

/// Borrowed appearance-slots capability, absent when unsupported.
pub fn luminate_capability_set_appearance_slots(v: Option<&LuminateCapabilitySet>) -> (s: Option<&LuminateAppearanceSlotsCapability>)
    ensures
        match v {
            Some(c) => match c.appearance_slots { Some(x) => s == Some(&x), None => s is None },
            None => s is None,
        },
{
    match v {
        Some(c) => match &c.appearance_slots {
            Some(x) => Some(x),
            None => None,
        },
        None => None,
    }
}

} // verus!

verus! {

pub fn luminate_frame_upload_scope(v: Option<&LuminateFrameUploadCapability>) -> (code: u32)
    ensures
        code == match v { Some(f) => f.scope, None => LUMINATE_DISCRIMINANT_INVALID },
{
    match v {
        Some(f) => f.scope,
        None => LUMINATE_DISCRIMINANT_INVALID,
    }
}

pub fn luminate_frame_upload_update_mode(v: Option<&LuminateFrameUploadCapability>) -> (code: u32)
    ensures
        code == match v { Some(f) => f.update_mode, None => LUMINATE_DISCRIMINANT_INVALID },
{
    match v {
        Some(f) => f.update_mode,
        None => LUMINATE_DISCRIMINANT_INVALID,
    }
}

pub fn luminate_frame_upload_has_max_rate_hz(v: Option<&LuminateFrameUploadCapability>) -> (has: bool)
    ensures
        has == (v matches Some(f) && f.max_rate_hz is Some),
{
    match v {
        Some(f) => f.max_rate_hz.is_some(),
        None => false,
    }
}

/// Maximum upload rate, or 0 when unspecified.
pub fn luminate_frame_upload_max_rate_hz(v: Option<&LuminateFrameUploadCapability>) -> (rate: u16)
    ensures
        rate == match v { Some(f) => match f.max_rate_hz { Some(r) => r, None => 0 }, None => 0 },
{
    match v {
        Some(f) => match f.max_rate_hz {
            Some(r) => r,
            None => 0,
        },
        None => 0,
    }
}

pub fn luminate_frame_upload_atomic(v: Option<&LuminateFrameUploadCapability>) -> (flag: bool)
    ensures
        flag == (v matches Some(f) && f.atomic),
{
    match v {
        Some(f) => f.atomic,
        None => false,
    }
}

pub fn luminate_frame_upload_buffering(v: Option<&LuminateFrameUploadCapability>) -> (code: u32)
    ensures
        code == match v { Some(f) => f.buffering, None => LUMINATE_DISCRIMINANT_INVALID },
{
    match v {
        Some(f) => f.buffering,
        None => LUMINATE_DISCRIMINANT_INVALID,
    }
}

/// Borrowed shared-memory capability, absent when only request/response
/// uploads are supported.
pub fn luminate_frame_upload_shm(v: Option<&LuminateFrameUploadCapability>) -> (s: Option<&LuminateShmFrameCapability>)
    ensures
        match v {
            Some(f) => match f.shm { Some(x) => s == Some(&x), None => s is None },
            None => s is None,
        },
{
    match v {
        Some(f) => match &f.shm {
            Some(x) => Some(x),
            None => None,
        },
        None => None,
    }
}

pub fn luminate_shm_frame_pixel_format_count(v: Option<&LuminateShmFrameCapability>) -> (count: usize)
    ensures
        count == match v { Some(s) => s.pixel_formats@.len(), None => 0 },
{
    match v {
        Some(s) => s.pixel_formats.len(),
        None => 0,
    }
}

/// Pixel-format code at `index`, or the invalid code.
pub fn luminate_shm_frame_pixel_format_at(v: Option<&LuminateShmFrameCapability>, index: usize) -> (code: u32)
    ensures
        code == match v {
            Some(s) => if index < s.pixel_formats@.len() { s.pixel_formats@[index as int] } else { LUMINATE_DISCRIMINANT_INVALID },
            None => LUMINATE_DISCRIMINANT_INVALID,
        },
{
    match v {
        Some(s) => if index < s.pixel_formats.len() { s.pixel_formats[index] } else { LUMINATE_DISCRIMINANT_INVALID },
        None => LUMINATE_DISCRIMINANT_INVALID,
    }
}

/// 0 for a linear buffer, 1 for a matrix.
pub fn luminate_shm_frame_shape_kind(v: Option<&LuminateShmFrameCapability>) -> (code: u32)
    ensures
        code == match v {
            Some(s) => if s.shape is Linear { 0u32 } else { 1u32 },
            None => LUMINATE_DISCRIMINANT_INVALID,
        },
{
    match v {
        Some(s) => match s.shape {
            ShmFrameShape::Linear { .. } => 0,
            ShmFrameShape::Matrix { .. } => 1,
        },
        None => LUMINATE_DISCRIMINANT_INVALID,
    }
}

/// The number of pixels a buffer shape holds, when representable.
pub fn pixel_count(shape: ShmFrameShape) -> (count: Option<u32>)
    ensures
        count == shape_pixel_count(shape),
{
    match shape {
        ShmFrameShape::Linear { pixel_count } => Some(pixel_count),
        ShmFrameShape::Matrix { width, height } => width.checked_mul(height),
    }
}

/// Writes the total pixel count of the buffer.
pub fn luminate_shm_frame_pixel_count(v: Option<&LuminateShmFrameCapability>, out_pixel_count: Option<&mut u32>) -> (written: bool)
    ensures
        written == ((match v { Some(s) => shape_pixel_count(s.shape), None => None::<u32> }) is Some && out_pixel_count is Some),
        out_pixel_count matches Some(o) ==> *final(o) == written_value(
            match v { Some(s) => shape_pixel_count(s.shape), None => None::<u32> }, *o),
{
    let found = match v {
        Some(s) => pixel_count(s.shape),
        None => None,
    };
    write_found(found, out_pixel_count)
}

/// The matrix dimensions of a buffer.
pub open spec fn matrix_dimensions(v: Option<&LuminateShmFrameCapability>) -> Option<(u32, u32)> {
    match v {
        Some(s) => match s.shape {
            ShmFrameShape::Matrix { width, height } => Some((width, height)),
            _ => None,
        },
        None => None,
    }
}

pub fn luminate_shm_frame_matrix_width(v: Option<&LuminateShmFrameCapability>, out_width: Option<&mut u32>) -> (written: bool)
    ensures
        written == (matrix_dimensions(v) is Some && out_width is Some),
        out_width matches Some(o) ==> *final(o) == written_value(
            match matrix_dimensions(v) { Some(d) => Some(d.0), None => None::<u32> }, *o),
{
    let found = match v {
        Some(s) => match s.shape {
            ShmFrameShape::Matrix { width, .. } => Some(width),
            _ => None,
        },
        None => None,
    };
    write_found(found, out_width)
}

pub fn luminate_shm_frame_matrix_height(v: Option<&LuminateShmFrameCapability>, out_height: Option<&mut u32>) -> (written: bool)
    ensures
        written == (matrix_dimensions(v) is Some && out_height is Some),
        out_height matches Some(o) ==> *final(o) == written_value(
            match matrix_dimensions(v) { Some(d) => Some(d.1), None => None::<u32> }, *o),
{
    let found = match v {
        Some(s) => match s.shape {
            ShmFrameShape::Matrix { height, .. } => Some(height),
            _ => None,
        },
        None => None,
    };
    write_found(found, out_height)
}

pub fn luminate_shm_frame_has_max_rate_hz(v: Option<&LuminateShmFrameCapability>) -> (has: bool)
    ensures
        has == (v matches Some(s) && s.max_rate_hz is Some),
{
    match v {
        Some(s) => s.max_rate_hz.is_some(),
        None => false,
    }
}

/// Shared-memory maximum rate, or 0 when the ordinary limit applies.
pub fn luminate_shm_frame_max_rate_hz(v: Option<&LuminateShmFrameCapability>) -> (rate: u16)
    ensures
        rate == match v { Some(s) => match s.max_rate_hz { Some(r) => r, None => 0 }, None => 0 },
{
    match v {
        Some(s) => match s.max_rate_hz {
            Some(r) => r,
            None => 0,
        },
        None => 0,
    }
}

pub fn luminate_hardware_effects_effect_count(v: Option<&LuminateHardwareEffectsCapability>) -> (count: usize)
    ensures
        count == match v { Some(h) => h.effects@.len(), None => 0 },
{
    match v {
        Some(h) => h.effects.len(),
        None => 0,
    }
}

/// Borrowed effect descriptor at `index`.
pub fn luminate_hardware_effects_effect_at(v: Option<&LuminateHardwareEffectsCapability>, index: usize) -> (d: Option<&LuminateHardwareEffectDescriptor>)
    ensures
        match v {
            Some(h) => if index < h.effects@.len() { d == Some(&h.effects@[index as int]) } else { d is None },
            None => d is None,
        },
{
    match v {
        Some(h) => if index < h.effects.len() { Some(&h.effects[index]) } else { None },
        None => None,
    }
}

pub fn luminate_hardware_effects_scope(v: Option<&LuminateHardwareEffectsCapability>) -> (code: u32)
    ensures
        code == match v { Some(h) => h.scope, None => LUMINATE_DISCRIMINANT_INVALID },
{
    match v {
        Some(h) => h.scope,
        None => LUMINATE_DISCRIMINANT_INVALID,
    }
}

pub fn luminate_hardware_effects_concurrent_with_streaming(v: Option<&LuminateHardwareEffectsCapability>) -> (flag: bool)
    ensures
        flag == (v matches Some(h) && h.concurrent_with_streaming),
{
    match v {
        Some(h) => h.concurrent_with_streaming,
        None => false,
    }
}

pub fn luminate_hardware_effect_descriptor_id(v: Option<&LuminateHardwareEffectDescriptor>) -> (text: Option<&str>)
    ensures
        opt_str(text) == match v { Some(d) => Some(d.id@), None => None::<Seq<char>> },
{
    match v {
        Some(d) => Some(d.id.as_str()),
        None => None,
    }
}

pub fn luminate_hardware_effect_descriptor_name(v: Option<&LuminateHardwareEffectDescriptor>) -> (text: Option<&str>)
    ensures
        opt_str(text) == match v { Some(d) => Some(d.name@), None => None::<Seq<char>> },
{
    match v {
        Some(d) => Some(d.name.as_str()),
        None => None,
    }
}

pub fn luminate_hardware_effect_descriptor_parameter_count(v: Option<&LuminateHardwareEffectDescriptor>) -> (count: usize)
    ensures
        count == match v { Some(d) => d.parameters@.len(), None => 0 },
{
    match v {
        Some(d) => d.parameters.len(),
        None => 0,
    }
}

/// Borrowed parameter at `index`.
pub fn luminate_hardware_effect_descriptor_parameter_at(v: Option<&LuminateHardwareEffectDescriptor>, index: usize) -> (p: Option<&LuminateEffectParameter>)
    ensures
        match v {
            Some(d) => if index < d.parameters@.len() { p == Some(&d.parameters@[index as int]) } else { p is None },
            None => p is None,
        },
{
    match v {
        Some(d) => if index < d.parameters.len() { Some(&d.parameters[index]) } else { None },
        None => None,
    }
}

/// The C effect-parameter codes are fixed: colour 0, speed 1, direction 2,
/// duration 3, brightness 4, choice 5.
pub proof fn lemma_parameter_code_table(p: EffectParameter)
    ensures
        p is Colour ==> parameter_code(p) == 0,
        p is Speed ==> parameter_code(p) == 1,
        p is Direction ==> parameter_code(p) == 2,
        p is Duration ==> parameter_code(p) == 3,
        p is Brightness ==> parameter_code(p) == 4,
        p is Choice ==> parameter_code(p) == 5,
{
}

/// The `LUMINATE_EFFECT_PARAMETER_*` code of a parameter.
pub open spec fn parameter_code(p: EffectParameter) -> u32 {
    match p {
        EffectParameter::Colour { .. } => 0,
        EffectParameter::Speed { .. } => 1,
        EffectParameter::Direction { .. } => 2,
        EffectParameter::Duration { .. } => 3,
        EffectParameter::Brightness { .. } => 4,
        EffectParameter::Choice { .. } => 5,
    }
}

pub fn luminate_effect_parameter_kind(v: Option<&LuminateEffectParameter>) -> (code: u32)
    ensures
        code == match v { Some(p) => parameter_code(*p), None => LUMINATE_DISCRIMINANT_INVALID },
{
    match v {
        Some(EffectParameter::Colour { .. }) => 0,
        Some(EffectParameter::Speed { .. }) => 1,
        Some(EffectParameter::Direction { .. }) => 2,
        Some(EffectParameter::Duration { .. }) => 3,
        Some(EffectParameter::Brightness { .. }) => 4,
        Some(EffectParameter::Choice { .. }) => 5,
        None => LUMINATE_DISCRIMINANT_INVALID,
    }
}

/// Writes the inclusive colour-count range of a colour parameter; nothing is
/// written unless the parameter is a colour parameter and both outputs are
/// present.
pub fn luminate_effect_parameter_colour_count_range(
    v: Option<&LuminateEffectParameter>,
    out_minimum: Option<&mut u8>,
    out_maximum: Option<&mut u8>,
) -> (written: bool)
    ensures
        written == ((v matches Some(EffectParameter::Colour { .. })) && out_minimum is Some && out_maximum is Some),
        out_minimum matches Some(o) ==> *final(o) == (if written {
            match v { Some(EffectParameter::Colour { minimum_colours, .. }) => *minimum_colours, _ => *o }
        } else {
            *o
        }),
        out_maximum matches Some(o) ==> *final(o) == (if written {
            match v { Some(EffectParameter::Colour { maximum_colours, .. }) => *maximum_colours, _ => *o }
        } else {
            *o
        }),
{
    match (v, out_minimum, out_maximum) {
        (Some(EffectParameter::Colour { minimum_colours, maximum_colours }), Some(lo), Some(hi)) => {
            *lo = *minimum_colours;
            *hi = *maximum_colours;
            true
        },
        _ => false,
    }
}

/// The range of a speed parameter.
pub open spec fn speed_range(v: Option<&LuminateEffectParameter>) -> Option<LuminateU16Range> {
    match v {
        Some(EffectParameter::Speed { range }) => Some(*range),
        _ => None,
    }
}

pub fn luminate_effect_parameter_speed_range(v: Option<&LuminateEffectParameter>, out_range: Option<&mut LuminateU16Range>) -> (written: bool)
    ensures
        written == (speed_range(v) is Some && out_range is Some),
        out_range matches Some(o) ==> *final(o) == written_value(speed_range(v), *o),
{
    let found = match v {
        Some(EffectParameter::Speed { range }) => Some(*range),
        _ => None,
    };
    write_found(found, out_range)
}

/// The directions of a direction parameter; empty otherwise.
pub open spec fn parameter_directions(v: Option<&LuminateEffectParameter>) -> Seq<EffectDirection> {
    match v {
        Some(EffectParameter::Direction { values }) => values@,
        _ => Seq::empty(),
    }
}

pub fn luminate_effect_parameter_direction_count(v: Option<&LuminateEffectParameter>) -> (count: usize)
    ensures
        count == parameter_directions(v).len(),
{
    match v {
        Some(EffectParameter::Direction { values }) => values.len(),
        _ => 0,
    }
}

/// Direction code at `i`, or the invalid code.
pub fn luminate_effect_parameter_direction_at(v: Option<&LuminateEffectParameter>, i: usize) -> (code: u32)
    ensures
        code == (if i < parameter_directions(v).len() {
            direction_code(parameter_directions(v)[i as int])
        } else {
            LUMINATE_DISCRIMINANT_INVALID
        }),
{
    match v {
        Some(EffectParameter::Direction { values }) => if i < values.len() {
            crate::effects::direction_to_u32(values[i])
        } else {
            LUMINATE_DISCRIMINANT_INVALID
        },
        _ => LUMINATE_DISCRIMINANT_INVALID,
    }
}

/// The range of a duration parameter.
pub open spec fn duration_range(v: Option<&LuminateEffectParameter>) -> Option<LuminateU32Range> {
    match v {
        Some(EffectParameter::Duration { milliseconds }) => Some(*milliseconds),
        _ => None,
    }
}

pub fn luminate_effect_parameter_duration_range(v: Option<&LuminateEffectParameter>, out_range: Option<&mut LuminateU32Range>) -> (written: bool)
    ensures
        written == (duration_range(v) is Some && out_range is Some),
        out_range matches Some(o) ==> *final(o) == written_value(duration_range(v), *o),
{
    let found = match v {
        Some(EffectParameter::Duration { milliseconds }) => Some(*milliseconds),
        _ => None,
    };
    write_found(found, out_range)
}

/// The bit depth of a brightness parameter.
pub open spec fn parameter_bits(v: Option<&LuminateEffectParameter>) -> Option<u8> {
    match v {
        Some(EffectParameter::Brightness { bits }) => Some(*bits),
        _ => None,
    }
}

pub fn luminate_effect_parameter_brightness_bits(v: Option<&LuminateEffectParameter>, out_bits: Option<&mut u8>) -> (written: bool)
    ensures
        written == (parameter_bits(v) is Some && out_bits is Some),
        out_bits matches Some(o) ==> *final(o) == written_value(parameter_bits(v), *o),
{
    let found = match v {
        Some(EffectParameter::Brightness { bits }) => Some(*bits),
        _ => None,
    };
    write_found(found, out_bits)
}

/// The options of a choice parameter; empty otherwise.
pub open spec fn parameter_choices(v: Option<&LuminateEffectParameter>) -> Seq<EffectChoice> {
    match v {
        Some(EffectParameter::Choice { options }) => options@,
        _ => Seq::empty(),
    }
}

pub fn luminate_effect_parameter_choice_count(v: Option<&LuminateEffectParameter>) -> (count: usize)
    ensures
        count == parameter_choices(v).len(),
{
    match v {
        Some(EffectParameter::Choice { options }) => options.len(),
        _ => 0,
    }
}

/// Borrowed choice option at `i`.
pub fn luminate_effect_parameter_choice_at(v: Option<&LuminateEffectParameter>, i: usize) -> (choice: Option<&LuminateEffectChoice>)
    ensures
        match choice {
            Some(c) => i < parameter_choices(v).len() && *c == parameter_choices(v)[i as int],
            None => i >= parameter_choices(v).len(),
        },
{
    match v {
        Some(EffectParameter::Choice { options }) => if i < options.len() { Some(&options[i]) } else { None },
        _ => None,
    }
}

pub fn luminate_effect_choice_id(v: Option<&LuminateEffectChoice>) -> (text: Option<&str>)
    ensures
        opt_str(text) == match v { Some(c) => Some(c.id@), None => None::<Seq<char>> },
{
    match v {
        Some(c) => Some(c.id.as_str()),
        None => None,
    }
}

pub fn luminate_effect_choice_name(v: Option<&LuminateEffectChoice>) -> (text: Option<&str>)
    ensures
        opt_str(text) == match v { Some(c) => Some(c.name@), None => None::<Seq<char>> },
{
    match v {
        Some(c) => Some(c.name.as_str()),
        None => None,
    }
}

pub fn luminate_readable_facet_kind(v: Option<&LuminateReadableFacet>) -> (code: u32)
    ensures
        code == match v { Some(f) => f.facet, None => LUMINATE_DISCRIMINANT_INVALID },
{
    match v {
        Some(f) => f.facet,
        None => LUMINATE_DISCRIMINANT_INVALID,
    }
}

pub fn luminate_readable_facet_fidelity(v: Option<&LuminateReadableFacet>) -> (code: u32)
    ensures
        code == match v { Some(f) => f.fidelity, None => LUMINATE_DISCRIMINANT_INVALID },
{
    match v {
        Some(f) => f.fidelity,
        None => LUMINATE_DISCRIMINANT_INVALID,
    }
}

pub fn luminate_physical_power_scope(v: Option<&LuminatePhysicalPowerCapability>) -> (code: u32)
    ensures
        code == match v { Some(p) => p.scope, None => LUMINATE_DISCRIMINANT_INVALID },
{
    match v {
        Some(p) => p.scope,
        None => LUMINATE_DISCRIMINANT_INVALID,
    }
}

/// 0 for the whole device, 1 for a surface.
pub fn luminate_power_domain_kind(v: Option<&LuminatePowerDomainRef>) -> (code: u32)
    ensures
        code == match v {
            Some(PowerDomainRef::Device) => 0u32,
            Some(PowerDomainRef::Surface { .. }) => 1u32,
            None => LUMINATE_DISCRIMINANT_INVALID,
        },
{
    match v {
        Some(PowerDomainRef::Device) => 0,
        Some(PowerDomainRef::Surface { .. }) => 1,
        None => LUMINATE_DISCRIMINANT_INVALID,
    }
}

/// The surface a surface power domain refers to.
pub fn luminate_power_domain_surface_id(v: Option<&LuminatePowerDomainRef>) -> (text: Option<&str>)
    ensures
        opt_str(text) == match v { Some(PowerDomainRef::Surface { surface }) => Some(surface@), _ => None::<Seq<char>> },
{
    match v {
        Some(PowerDomainRef::Surface { surface }) => Some(surface.as_str()),
        _ => None,
    }
}

} // verus!

verus! {

pub fn luminate_appearance_slots_update_policy(v: Option<&LuminateAppearanceSlotsCapability>) -> (code: u32)
    ensures
        code == match v { Some(s) => s.update_policy, None => LUMINATE_DISCRIMINANT_INVALID },
{
    match v {
        Some(s) => s.update_policy,
        None => LUMINATE_DISCRIMINANT_INVALID,
    }
}

pub fn luminate_appearance_slot_count(v: Option<&LuminateAppearanceSlotsCapability>) -> (count: usize)
    ensures
        count == match v { Some(s) => s.slots@.len(), None => 0 },
{
    match v {
        Some(s) => s.slots.len(),
        None => 0,
    }
}

/// Borrowed slot descriptor at `index`.
pub fn luminate_appearance_slot_at(v: Option<&LuminateAppearanceSlotsCapability>, index: usize) -> (d: Option<&LuminateAppearanceSlotDescriptor>)
    ensures
        match v {
            Some(s) => if index < s.slots@.len() { d == Some(&s.slots@[index as int]) } else { d is None },
            None => d is None,
        },
{
    match v {
        Some(s) => if index < s.slots.len() { Some(&s.slots[index]) } else { None },
        None => None,
    }
}

pub fn luminate_appearance_slot_id(v: Option<&LuminateAppearanceSlotDescriptor>) -> (text: Option<&str>)
    ensures
        opt_str(text) == match v { Some(d) => Some(d.id@), None => None::<Seq<char>> },
{
    match v {
        Some(d) => Some(d.id.as_str()),
        None => None,
    }
}

pub fn luminate_appearance_slot_name(v: Option<&LuminateAppearanceSlotDescriptor>) -> (text: Option<&str>)
    ensures
        opt_str(text) == match v { Some(d) => Some(d.name@), None => None::<Seq<char>> },
{
    match v {
        Some(d) => Some(d.name.as_str()),
        None => None,
    }
}

/// Appearance operations accepted by a slot.
pub fn luminate_appearance_slot_appearance(v: Option<&LuminateAppearanceSlotDescriptor>) -> (a: Option<&LuminateAppearanceCapability>)
    ensures
        a == match v { Some(d) => Some(&d.appearance), None => None::<&LuminateAppearanceCapability> },
{
    match v {
        Some(d) => Some(&d.appearance),
        None => None,
    }
}

/// Persistence kind code of a slot.
pub fn luminate_appearance_slot_persistence_kind(v: Option<&LuminateAppearanceSlotDescriptor>) -> (code: u32)
    ensures
        code == match v { Some(d) => persistence_code(d.persistence), None => LUMINATE_DISCRIMINANT_INVALID },
{
    match v {
        Some(d) => persistence_kind(d.persistence),
        None => LUMINATE_DISCRIMINANT_INVALID,
    }
}

pub fn luminate_appearance_slot_note_count(v: Option<&LuminateAppearanceSlotDescriptor>) -> (count: usize)
    ensures
        count == match v { Some(d) => d.notes@.len(), None => 0 },
{
    match v {
        Some(d) => d.notes.len(),
        None => 0,
    }
}

pub fn luminate_appearance_slot_note_at(v: Option<&LuminateAppearanceSlotDescriptor>, index: usize) -> (text: Option<&str>)
    ensures
        opt_str(text) == match v { Some(d) => set_text_at(texts_of(d.notes@), index), None => None::<Seq<char>> },
{
    match v {
        Some(d) => crate::management::string_at(&d.notes, index),
        None => None,
    }
}

pub fn luminate_appearance_slot_warning_count(v: Option<&LuminateAppearanceSlotDescriptor>) -> (count: usize)
    ensures
        count == match v { Some(d) => d.warnings@.len(), None => 0 },
{
    match v {
        Some(d) => d.warnings.len(),
        None => 0,
    }
}

pub fn luminate_appearance_slot_warning_at(v: Option<&LuminateAppearanceSlotDescriptor>, index: usize) -> (text: Option<&str>)
    ensures
        opt_str(text) == match v { Some(d) => set_text_at(texts_of(d.warnings@), index), None => None::<Seq<char>> },
{
    match v {
        Some(d) => crate::management::string_at(&d.warnings, index),
        None => None,
    }
}

pub fn luminate_appearance_capability_colour_count(v: Option<&LuminateAppearanceCapability>) -> (count: usize)
    ensures
        count == match v { Some(a) => a.colour@.len(), None => 0 },
{
    match v {
        Some(a) => a.colour.len(),
        None => 0,
    }
}

/// Borrowed colour capability at `index`.
pub fn luminate_appearance_capability_colour_at(v: Option<&LuminateAppearanceCapability>, index: usize) -> (c: Option<&LuminateColourCapability>)
    ensures
        match v {
            Some(a) => if index < a.colour@.len() { c == Some(&a.colour@[index as int]) } else { c is None },
            None => c is None,
        },
{
    match v {
        Some(a) => if index < a.colour.len() { Some(&a.colour[index]) } else { None },
        None => None,
    }
}

pub fn luminate_appearance_capability_cct_emulation(v: Option<&LuminateAppearanceCapability>) -> (code: u32)
    ensures
        code == match v { Some(a) => cct_emulation_code(a.cct_emulation), None => LUMINATE_DISCRIMINANT_INVALID },
{
    match v {
        Some(a) => cct_emulation_to_u32(a.cct_emulation),
        None => LUMINATE_DISCRIMINANT_INVALID,
    }
}

/// Borrowed hardware-effects capability a slot accepts.
pub fn luminate_appearance_capability_hardware_effects(v: Option<&LuminateAppearanceCapability>) -> (h: Option<&LuminateHardwareEffectsCapability>)
    ensures
        match v {
            Some(a) => match a.hardware_effects { Some(x) => h == Some(&x), None => h is None },
            None => h is None,
        },
{
    match v {
        Some(a) => match &a.hardware_effects {
            Some(x) => Some(x),
            None => None,
        },
        None => None,
    }
}

} // verus!

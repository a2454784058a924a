//! Collections at the C boundary: decoding of targets and collection members,
//! validation of collection requests, and read accessors over collections
//! and their owners.

use vstd::prelude::*;
use vstd::string::StringExecFns;

use crate::access::PrincipalId;
use crate::canonical::texts_of;
use crate::input::{arg_bytes, read_optional_str, read_owned_str, required_str_outcome};
use crate::policy::{drop_value, opt_str};
use crate::status::{error_status, Diagnostics, Error, LastError, LuminateStatus, TargetId};

verus! {

/// A caller-owned target: a required device id and optional surface,
/// element and group ids (null when absent).
#[derive(Debug, Clone, Copy)]
pub struct LuminateTarget<'a> {
    pub device_id: Option<&'a [u8]>,
    pub surface_id: Option<&'a [u8]>,
    pub element_id: Option<&'a [u8]>,
    pub group_id: Option<&'a [u8]>,
}

/// The content of a target.
pub struct TargetView {
    pub device: Seq<char>,
    pub surface: Option<Seq<char>>,
    pub element: Option<Seq<char>>,
    pub group: Option<Seq<char>>,
}

/// The view of an optional owned string.
pub open spec fn opt_text(value: Option<String>) -> Option<Seq<char>> {
    match value {
        Some(s) => Some(s@),
        None => None,
    }
}

pub open spec fn target_view(target: TargetId) -> TargetView {
    TargetView {
        device: target.device@,
        surface: opt_text(target.surface),
        element: opt_text(target.element),
        group: opt_text(target.group),
    }
}

/// Decoding of an optional string argument: null is absent, anything else
/// must be valid UTF-8.
pub open spec fn optional_str_outcome(value: Option<Seq<u8>>) -> Result<Option<Seq<char>>, LuminateStatus> {
    match value {
        None => Ok(None),
        Some(_) => match required_str_outcome(value) {
            Ok(text) => Ok(Some(text)),
            Err(status) => Err(status),
        },
    }
}

/// The shapes a target can take: a device; a surface of it; an element of
/// that surface; or a group of the device.
///
/// Assumed rule: `luminate_core`'s target model is taken to accept exactly
/// these shapes; its source is not available here, so the rule follows the
/// behaviour observed at the C surface.
pub open spec fn target_shape_valid(surface: bool, element: bool, group: bool) -> bool {
    &&& element ==> surface
    &&& group ==> !surface && !element
}

/// Decoding of a target: null is `NullPointer`; then the device id, surface,
/// element and group are read in order; a contradictory shape is
/// `InvalidArgument`.
pub open spec fn target_outcome<'a>(target: Option<LuminateTarget<'a>>) -> Result<TargetView, LuminateStatus> {
    match target {
        None => Err(LuminateStatus::NullPointer),
        Some(t) => match required_str_outcome(arg_bytes(t.device_id)) {
            Err(status) => Err(status),
            Ok(device) => match optional_str_outcome(arg_bytes(t.surface_id)) {
                Err(status) => Err(status),
                Ok(surface) => match optional_str_outcome(arg_bytes(t.element_id)) {
                    Err(status) => Err(status),
                    Ok(element) => match optional_str_outcome(arg_bytes(t.group_id)) {
                        Err(status) => Err(status),
                        Ok(group) => if target_shape_valid(surface is Some, element is Some, group is Some) {
                            Ok(TargetView { device, surface, element, group })
                        } else {
                            Err(LuminateStatus::InvalidArgument)
                        },
                    },
                },
            },
        },
    }
}

fn read_optional(value: Option<&[u8]>) -> (result: Result<Option<String>, LuminateStatus>)
    ensures
        match result {
            Ok(text) => optional_str_outcome(arg_bytes(value)) == Ok::<Option<Seq<char>>, LuminateStatus>(opt_text(text)),
            Err(status) => optional_str_outcome(arg_bytes(value)) == Err::<Option<Seq<char>>, LuminateStatus>(status),
        },
{
    read_optional_str(value)
}

/// Decodes a caller-owned target.
pub fn read_target(target: Option<&LuminateTarget>) -> (result: Result<TargetId, LuminateStatus>)
    ensures
        match result {
            Ok(t) => target_outcome(opt_target(target)) == Ok::<TargetView, LuminateStatus>(target_view(t)),
            Err(status) => target_outcome(opt_target(target)) == Err::<TargetView, LuminateStatus>(status),
        },
{
    let t = match target {
        None => return Err(LuminateStatus::NullPointer),
        Some(t) => t,
    };
    let device = read_owned_str(t.device_id)?;
    let surface = read_optional(t.surface_id)?;
    let element = read_optional(t.element_id)?;
    let group = read_optional(t.group_id)?;
    let has_surface = surface.is_some();
    let has_element = element.is_some();
    let has_group = group.is_some();
    if has_element && !has_surface {
        return Err(LuminateStatus::InvalidArgument);
    }
    if has_group && (has_surface || has_element) {
        return Err(LuminateStatus::InvalidArgument);
    }
    Ok(TargetId { device, surface, element, group })
}

/// A decoded target keeps each of the caller's fields in its own place: the
/// device is the caller's device ID, and the surface, element and group are
/// the caller's surface, element and group IDs (absent where the caller
/// passed null). Each of those fields read without error.
pub proof fn lemma_target_fields_from_their_inputs<'a>(t: LuminateTarget<'a>)
    ensures
        target_outcome(Some(t)) matches Ok(v) ==> {
            &&& required_str_outcome(arg_bytes(t.device_id)) == Ok::<Seq<char>, LuminateStatus>(v.device)
            &&& optional_str_outcome(arg_bytes(t.surface_id)) == Ok::<Option<Seq<char>>, LuminateStatus>(v.surface)
            &&& optional_str_outcome(arg_bytes(t.element_id)) == Ok::<Option<Seq<char>>, LuminateStatus>(v.element)
            &&& optional_str_outcome(arg_bytes(t.group_id)) == Ok::<Option<Seq<char>>, LuminateStatus>(v.group)
            &&& (t.surface_id is None ==> v.surface is None)
            &&& (t.element_id is None ==> v.element is None)
            &&& (t.group_id is None ==> v.group is None)
        },
{
}

/// The view of an optional borrowed target.
pub open spec fn opt_target<'a>(target: Option<&LuminateTarget<'a>>) -> Option<LuminateTarget<'a>> {
    match target {
        Some(t) => Some(*t),
        None => None,
    }
}

/// One caller-owned collection member: a concrete target, or a nested
/// collection id when `is_collection` is set. Only the selected field is
/// read.
#[derive(Debug, Clone, Copy)]
pub struct LuminateCollectionMemberInput<'a> {
    pub is_collection: bool,
    pub target: LuminateTarget<'a>,
    pub collection_id: Option<&'a [u8]>,
}

/// A member of a collection: a target or a nested collection.
#[derive(Debug, PartialEq)]
pub enum LuminateCollectionMember {
    Target(TargetId),
    Collection(String),
}

pub type CollectionMember = LuminateCollectionMember;

/// The content of a collection member.
pub enum MemberView {
    Target(TargetView),
    Collection(Seq<char>),
}

pub open spec fn member_view(member: CollectionMember) -> MemberView {
    match member {
        CollectionMember::Target(t) => MemberView::Target(target_view(t)),
        CollectionMember::Collection(id) => MemberView::Collection(id@),
    }
}

/// Decoding of one member input.
pub open spec fn member_outcome<'a>(input: LuminateCollectionMemberInput<'a>) -> Result<MemberView, LuminateStatus> {
    if input.is_collection {
        match required_str_outcome(arg_bytes(input.collection_id)) {
            Ok(id) => Ok(MemberView::Collection(id)),
            Err(status) => Err(status),
        }
    } else {
        match target_outcome(Some(input.target)) {
            Ok(t) => Ok(MemberView::Target(t)),
            Err(status) => Err(status),
        }
    }
}

/// Decodes one caller-owned collection member.
pub fn read_collection_member(input: &LuminateCollectionMemberInput) -> (result: Result<CollectionMember, LuminateStatus>)
    ensures
        match result {
            Ok(m) => member_outcome(*input) == Ok::<MemberView, LuminateStatus>(member_view(m)),
            Err(status) => member_outcome(*input) == Err::<MemberView, LuminateStatus>(status),
        },
{
    if input.is_collection {
        let id = read_owned_str(input.collection_id)?;
        Ok(CollectionMember::Collection(id))
    } else {
        let target = read_target(Some(&input.target))?;
        Ok(CollectionMember::Target(target))
    }
}

/// Decoding of member inputs in order; the first failure wins.
pub open spec fn members_outcome<'a>(items: Seq<LuminateCollectionMemberInput<'a>>) -> Result<Seq<MemberView>, LuminateStatus>
    decreases items.len(),
{
    if items.len() == 0 {
        Ok(Seq::empty())
    } else {
        match members_outcome(items.drop_last()) {
            Err(status) => Err(status),
            Ok(prefix) => match member_outcome(items.last()) {
                Err(status) => Err(status),
                Ok(m) => Ok(prefix.push(m)),
            },
        }
    }
}

/// Decoding of a counted member array: a zero count never reads the array;
/// a null array with a non-zero count is `NullPointer`.
pub open spec fn member_list_outcome<'a>(members: Option<&[LuminateCollectionMemberInput<'a>]>, count: usize) -> Result<Seq<MemberView>, LuminateStatus> {
    if count == 0 {
        Ok(Seq::empty())
    } else {
        match members {
            None => Err(LuminateStatus::NullPointer),
            Some(items) => members_outcome(items@),
        }
    }
}

pub open spec fn members_view(members: Seq<CollectionMember>) -> Seq<MemberView> {
    members.map_values(|m: CollectionMember| member_view(m))
}

proof fn lemma_members_error_persists<'a>(items: Seq<LuminateCollectionMemberInput<'a>>, k: int, status: LuminateStatus)
    requires
        0 <= k <= items.len(),
        members_outcome(items.take(k)) == Err::<Seq<MemberView>, LuminateStatus>(status),
    ensures
        members_outcome(items) == Err::<Seq<MemberView>, LuminateStatus>(status),
    decreases items.len() - k,
{
    if k < items.len() {
        assert(items.take(k + 1).drop_last() =~= items.take(k));
        lemma_members_error_persists(items, k + 1, status);
    } else {
        assert(items.take(k) =~= items);
    }
}

/// Decodes `count` caller-owned collection members.
pub fn read_members(members: Option<&[LuminateCollectionMemberInput]>, count: usize) -> (result: Result<Vec<CollectionMember>, LuminateStatus>)
    requires
        members matches Some(items) ==> items@.len() == count,
    ensures
        match result {
            Ok(decoded) => member_list_outcome(members, count) == Ok::<Seq<MemberView>, LuminateStatus>(members_view(decoded@)),
            Err(status) => member_list_outcome(members, count) == Err::<Seq<MemberView>, LuminateStatus>(status),
        },
{
    let mut decoded: Vec<CollectionMember> = Vec::new();
    assert(members_view(decoded@) =~= Seq::<MemberView>::empty());
    if count == 0 {
        return Ok(decoded);
    }
    let items = match members {
        None => return Err(LuminateStatus::NullPointer),
        Some(items) => items,
    };
    let mut i: usize = 0;
    assert(items@.take(0) =~= Seq::<LuminateCollectionMemberInput>::empty());
    while i < items.len()
        invariant
            0 <= i <= items@.len(),
            members_outcome(items@.take(i as int)) == Ok::<Seq<MemberView>, LuminateStatus>(members_view(decoded@)),
            members == Some(items),
            count != 0,
        decreases items@.len() - i,
    {
        assert(items@.take(i + 1).drop_last() =~= items@.take(i as int));
        assert(items@.take(i + 1).last() == items@[i as int]);
        match read_collection_member(&items[i]) {
            Ok(m) => {
                let ghost prev = decoded@;
                let ghost mv = member_view(m);
                decoded.push(m);
                assert(members_view(decoded@) =~= members_view(prev).push(mv));
            },
            Err(status) => {
                proof { lemma_members_error_persists(items@, i + 1, status); }
                return Err(status);
            },
        }
        i = i + 1;
    }
    assert(items@.take(items@.len() as int) =~= items@);
    Ok(decoded)
}

/// A validated request to create a collection.
pub struct CreateCollectionRequest {
    pub name: String,
    pub description: Option<String>,
    pub kind: Option<String>,
    pub members: Vec<CollectionMember>,
}

/// The content of a create-collection request.
pub struct CreateCollectionView {
    pub name: Seq<char>,
    pub description: Option<Seq<char>>,
    pub kind: Option<Seq<char>>,
    pub members: Seq<MemberView>,
}

impl CreateCollectionRequest {
    pub open spec fn view(&self) -> CreateCollectionView {
        CreateCollectionView {
            name: self.name@,
            description: opt_text(self.description),
            kind: opt_text(self.kind),
            members: members_view(self.members@),
        }
    }
}

/// Decision for `luminate_client_create_collection`: a null client first,
/// then the name, the optional description and kind, the members, and
/// finally a null id output.
pub open spec fn create_collection_outcome<'a>(
    client_present: bool,
    name: Option<Seq<u8>>,
    description: Option<Seq<u8>>,
    kind: Option<Seq<u8>>,
    members: Option<&[LuminateCollectionMemberInput<'a>]>,
    member_count: usize,
    out_present: bool,
) -> Result<CreateCollectionView, LuminateStatus> {
    if !client_present {
        Err(LuminateStatus::NullPointer)
    } else {
        match required_str_outcome(name) {
            Err(status) => Err(status),
            Ok(n) => match optional_str_outcome(description) {
                Err(status) => Err(status),
                Ok(d) => match optional_str_outcome(kind) {
                    Err(status) => Err(status),
                    Ok(k) => match member_list_outcome(members, member_count) {
                        Err(status) => Err(status),
                        Ok(m) => if out_present {
                            Ok(CreateCollectionView { name: n, description: d, kind: k, members: m })
                        } else {
                            Err(LuminateStatus::NullPointer)
                        },
                    },
                },
            },
        }
    }
}

/// Validates and copies the inputs of `luminate_client_create_collection`.
pub fn create_collection_request(
    client_present: bool,
    name: Option<&[u8]>,
    description: Option<&[u8]>,
    kind: Option<&[u8]>,
    members: Option<&[LuminateCollectionMemberInput]>,
    member_count: usize,
    out_present: bool,
) -> (result: Result<CreateCollectionRequest, LuminateStatus>)
    requires
        members matches Some(items) ==> items@.len() == member_count,
    ensures
        match result {
            Ok(r) => create_collection_outcome(client_present, arg_bytes(name), arg_bytes(description), arg_bytes(kind),
                members, member_count, out_present) == Ok::<CreateCollectionView, LuminateStatus>(r.view()),
            Err(status) => create_collection_outcome(client_present, arg_bytes(name), arg_bytes(description), arg_bytes(kind),
                members, member_count, out_present) == Err::<CreateCollectionView, LuminateStatus>(status),
        },
{
    if !client_present {
        return Err(LuminateStatus::NullPointer);
    }
    let name = read_owned_str(name)?;
    let description = read_optional(description)?;
    let kind = read_optional(kind)?;
    let members = read_members(members, member_count)?;
    if !out_present {
        return Err(LuminateStatus::NullPointer);
    }
    Ok(CreateCollectionRequest { name, description, kind, members })
}

/// Decision for a call addressed by one id (a collection, a device or a
/// device's state): a null client, then the id, then a null output (when
/// the call has one).
pub open spec fn id_outcome(client_present: bool, id: Option<Seq<u8>>, out_present: bool) -> Result<Seq<char>, LuminateStatus> {
    if !client_present {
        Err(LuminateStatus::NullPointer)
    } else {
        match required_str_outcome(id) {
            Err(status) => Err(status),
            Ok(text) => if out_present { Ok(text) } else { Err(LuminateStatus::NullPointer) },
        }
    }
}

/// Validates the inputs of a call addressed by one id (destroying or getting
/// a collection or its state, getting a device or its state); a call
/// without an output passes `out_present` as true.
pub fn id_request(client_present: bool, id: Option<&[u8]>, out_present: bool) -> (result: Result<String, LuminateStatus>)
    ensures
        match result {
            Ok(text) => id_outcome(client_present, arg_bytes(id), out_present) == Ok::<Seq<char>, LuminateStatus>(text@),
            Err(status) => id_outcome(client_present, arg_bytes(id), out_present) == Err::<Seq<char>, LuminateStatus>(status),
        },
{
    if !client_present {
        return Err(LuminateStatus::NullPointer);
    }
    let text = read_owned_str(id)?;
    if !out_present {
        return Err(LuminateStatus::NullPointer);
    }
    Ok(text)
}

/// Decision for adding or removing one member: a null client, then the id,
/// then a null member, then the member's decoding.
pub open spec fn member_request_outcome<'a>(
    client_present: bool,
    id: Option<Seq<u8>>,
    member: Option<LuminateCollectionMemberInput<'a>>,
) -> Result<(Seq<char>, MemberView), LuminateStatus> {
    match id_outcome(client_present, id, true) {
        Err(status) => Err(status),
        Ok(text) => match member {
            None => Err(LuminateStatus::NullPointer),
            Some(m) => match member_outcome(m) {
                Err(status) => Err(status),
                Ok(v) => Ok((text, v)),
            },
        },
    }
}

pub open spec fn opt_member<'a>(member: Option<&LuminateCollectionMemberInput<'a>>) -> Option<LuminateCollectionMemberInput<'a>> {
    match member {
        Some(m) => Some(*m),
        None => None,
    }
}

/// Validates the inputs of `luminate_client_add_collection_member` and
/// `luminate_client_remove_collection_member`.
pub fn member_request(client_present: bool, id: Option<&[u8]>, member: Option<&LuminateCollectionMemberInput>) -> (result: Result<(String, CollectionMember), LuminateStatus>)
    ensures
        match result {
            Ok((text, m)) => member_request_outcome(client_present, arg_bytes(id), opt_member(member))
                == Ok::<(Seq<char>, MemberView), LuminateStatus>((text@, member_view(m))),
            Err(status) => member_request_outcome(client_present, arg_bytes(id), opt_member(member))
                == Err::<(Seq<char>, MemberView), LuminateStatus>(status),
        },
{
    let text = id_request(client_present, id, true)?;
    let m = match member {
        None => return Err(LuminateStatus::NullPointer),
        Some(m) => m,
    };
    let decoded = read_collection_member(m)?;
    Ok((text, decoded))
}

/// The description of what a lookup did not find: the kind of thing looked
/// up and its quoted id, as in `collection 'desk'`.
pub open spec fn not_found_text(kind: Seq<char>, id: Seq<char>) -> Seq<char> {
    kind + " '"@ + id + "'"@
}

/// The status of a lookup by id: a found value is kept; an absent one is
/// `NotFound` and records a not-found error naming the `kind` and `id`
/// looked up; a failed call reports its error's status and records it.
pub fn found_or_not_found<T>(reply: Result<Option<T>, Error>, kind: &str, id: &str, diagnostics: &mut Diagnostics) -> (result: Result<T, LuminateStatus>)
    ensures
        match reply {
            Ok(Some(value)) => result == Ok::<T, LuminateStatus>(value) && *final(diagnostics) == *old(diagnostics),
            Ok(None) => result == Err::<T, LuminateStatus>(LuminateStatus::NotFound)
                && (final(diagnostics).last matches Some(LastError::Failure(Error::NotFound(text)))
                    && text@ == not_found_text(kind@, id@)),
            Err(e) => result == Err::<T, LuminateStatus>(error_status(e))
                && final(diagnostics).last == Some(LastError::Failure(e)),
        },
{
    match reply {
        Ok(Some(value)) => Ok(value),
        Ok(None) => {
            let mut text = kind.to_owned();
            text.append(" '");
            text.append(id);
            text.append("'");
            Err(diagnostics.record_error(Error::NotFound(text)))
        },
        Err(e) => Err(diagnostics.record_error(e)),
    }
}

} // verus!

verus! {

/// The identity that owns a collection or scene.
#[derive(Debug)]
pub enum LuminateOwnerIdentity {
    Uid(u32),
    Sid(String),
    Principal(PrincipalId),
}

pub type OwnerIdentity = LuminateOwnerIdentity;

pub const LUMINATE_OWNER_KIND_UID: u32 = 0;
pub const LUMINATE_OWNER_KIND_SID: u32 = 1;
pub const LUMINATE_OWNER_KIND_PRINCIPAL: u32 = 2;
pub const LUMINATE_OWNER_KIND_INVALID: u32 = 0xffff_ffff;

/// A named, owned set of targets and nested collections.
#[derive(Debug)]
pub struct LuminateCollection {
    pub id: String,
    pub name: String,
    pub description: Option<String>,
    pub owner: OwnerIdentity,
    pub kind: Option<String>,
    pub members: Vec<CollectionMember>,
}

pub type Collection = LuminateCollection;

/// The C owner-kind codes are fixed: uid 0, SID 1, principal 2.
pub proof fn lemma_owner_kind_code_table(owner: OwnerIdentity)
    ensures
        owner is Uid ==> owner_kind_code(owner) == 0,
        owner is Sid ==> owner_kind_code(owner) == 1,
        owner is Principal ==> owner_kind_code(owner) == 2,
{
}

/// An owned list of collections.
#[derive(Debug)]
pub struct LuminateCollectionList(pub Vec<Collection>);

/// An owned single collection.
#[derive(Debug)]
pub struct LuminateCollectionSnapshot(pub Collection);

pub open spec fn owner_kind_code(owner: OwnerIdentity) -> u32 {
    match owner {
        OwnerIdentity::Uid(_) => 0,
        OwnerIdentity::Sid(_) => 1,
        OwnerIdentity::Principal(_) => 2,
    }
}

pub fn luminate_owner_identity_kind(owner: Option<&LuminateOwnerIdentity>) -> (code: u32)
    ensures
        code == match owner { Some(o) => owner_kind_code(*o), None => LUMINATE_OWNER_KIND_INVALID },
{
    match owner {
        Some(OwnerIdentity::Uid(_)) => LUMINATE_OWNER_KIND_UID,
        Some(OwnerIdentity::Sid(_)) => LUMINATE_OWNER_KIND_SID,
        Some(OwnerIdentity::Principal(_)) => LUMINATE_OWNER_KIND_PRINCIPAL,
        None => LUMINATE_OWNER_KIND_INVALID,
    }
}

/// Writes a uid owner's uid; false, writing nothing, for other owners, null
/// owners or a null output.
pub fn luminate_owner_identity_uid(owner: Option<&LuminateOwnerIdentity>, out_uid: Option<&mut u32>) -> (written: bool)
    ensures
        written == (owner matches Some(OwnerIdentity::Uid(_)) && out_uid is Some),
        out_uid matches Some(o) ==> (if written {
            owner matches Some(OwnerIdentity::Uid(uid)) && *final(o) == *uid
        } else {
            *final(o) == *o
        }),
{
    match (owner, out_uid) {
        (Some(OwnerIdentity::Uid(uid)), Some(o)) => {
            *o = *uid;
            true
        },
        _ => false,
    }
}

pub fn luminate_owner_identity_sid(owner: Option<&LuminateOwnerIdentity>) -> (text: Option<&str>)
    ensures
        opt_str(text) == match owner { Some(OwnerIdentity::Sid(sid)) => Some(sid@), _ => None::<Seq<char>> },
{
    match owner {
        Some(OwnerIdentity::Sid(sid)) => Some(sid.as_str()),
        _ => None,
    }
}

pub fn luminate_owner_identity_principal_authority(owner: Option<&LuminateOwnerIdentity>) -> (text: Option<&str>)
    ensures
        opt_str(text) == match owner { Some(OwnerIdentity::Principal(p)) => Some(p.spec_authority()), _ => None::<Seq<char>> },
{
    match owner {
        Some(OwnerIdentity::Principal(p)) => Some(p.authority()),
        _ => None,
    }
}

pub fn luminate_owner_identity_principal_subject(owner: Option<&LuminateOwnerIdentity>) -> (text: Option<&str>)
    ensures
        opt_str(text) == match owner { Some(OwnerIdentity::Principal(p)) => Some(p.spec_subject()), _ => None::<Seq<char>> },
{
    match owner {
        Some(OwnerIdentity::Principal(p)) => Some(p.subject()),
        _ => None,
    }
}

pub fn luminate_collection_list_count(v: Option<&LuminateCollectionList>) -> (count: usize)
    ensures
        count == match v { Some(l) => l.0@.len(), None => 0 },
{
    match v {
        Some(l) => l.0.len(),
        None => 0,
    }
}

/// Borrowed collection at `index`.
pub fn luminate_collection_list_at(v: Option<&LuminateCollectionList>, index: usize) -> (c: Option<&LuminateCollection>)
    ensures
        match v {
            Some(l) => if index < l.0@.len() { c == Some(&l.0@[index as int]) } else { c is None },
            None => c is None,
        },
{
    match v {
        Some(l) => if index < l.0.len() { Some(&l.0[index]) } else { None },
        None => None,
    }
}

/// The collection held by a snapshot.
pub fn luminate_collection_snapshot_collection(v: Option<&LuminateCollectionSnapshot>) -> (c: Option<&LuminateCollection>)
    ensures
        c == match v { Some(s) => Some(&s.0), None => None::<&LuminateCollection> },
{
    match v {
        Some(s) => Some(&s.0),
        None => None,
    }
}

pub fn luminate_collection_id(v: Option<&LuminateCollection>) -> (text: Option<&str>)
    ensures
        opt_str(text) == match v { Some(c) => Some(c.id@), None => None::<Seq<char>> },
{
    match v {
        Some(c) => Some(c.id.as_str()),
        None => None,
    }
}

pub fn luminate_collection_name(v: Option<&LuminateCollection>) -> (text: Option<&str>)
    ensures
        opt_str(text) == match v { Some(c) => Some(c.name@), None => None::<Seq<char>> },
{
    match v {
        Some(c) => Some(c.name.as_str()),
        None => None,
    }
}

/// The description, absent when unset.
pub fn luminate_collection_description(v: Option<&LuminateCollection>) -> (text: Option<&str>)
    ensures
        opt_str(text) == match v { Some(c) => opt_text(c.description), None => None::<Seq<char>> },
{
    match v {
        Some(c) => match &c.description {
            Some(d) => Some(d.as_str()),
            None => None,
        },
        None => None,
    }
}

pub fn luminate_collection_owner(v: Option<&LuminateCollection>) -> (owner: Option<&LuminateOwnerIdentity>)
    ensures
        owner == match v { Some(c) => Some(&c.owner), None => None::<&LuminateOwnerIdentity> },
{
    match v {
        Some(c) => Some(&c.owner),
        None => None,
    }
}

/// The presentation category, absent when unset.
pub fn luminate_collection_kind(v: Option<&LuminateCollection>) -> (text: Option<&str>)
    ensures
        opt_str(text) == match v { Some(c) => opt_text(c.kind), None => None::<Seq<char>> },
{
    match v {
        Some(c) => match &c.kind {
            Some(k) => Some(k.as_str()),
            None => None,
        },
        None => None,
    }
}

pub fn luminate_collection_member_count(v: Option<&LuminateCollection>) -> (count: usize)
    ensures
        count == match v { Some(c) => c.members@.len(), None => 0 },
{
    match v {
        Some(c) => c.members.len(),
        None => 0,
    }
}

/// Borrowed member at `index`.
pub fn luminate_collection_member_at(v: Option<&LuminateCollection>, index: usize) -> (m: Option<&LuminateCollectionMember>)
    ensures
        match v {
            Some(c) => if index < c.members@.len() { m == Some(&c.members@[index as int]) } else { m is None },
            None => m is None,
        },
{
    match v {
        Some(c) => if index < c.members.len() { Some(&c.members[index]) } else { None },
        None => None,
    }
}

/// 0 for a target member, 1 for a nested collection, `u32::MAX` for null.
pub fn luminate_collection_member_kind(v: Option<&LuminateCollectionMember>) -> (code: u32)
    ensures
        code == match v {
            Some(CollectionMember::Target(_)) => 0u32,
            Some(CollectionMember::Collection(_)) => 1u32,
            None => 0xffff_ffffu32,
        },
{
    match v {
        Some(CollectionMember::Target(_)) => 0,
        Some(CollectionMember::Collection(_)) => 1,
        None => 0xffff_ffff,
    }
}

/// The target of a target member.
pub fn luminate_collection_member_target(v: Option<&LuminateCollectionMember>) -> (t: Option<&TargetId>)
    ensures
        match v {
            Some(CollectionMember::Target(target)) => t == Some(target),
            _ => t is None,
        },
{
    match v {
        Some(CollectionMember::Target(target)) => Some(target),
        _ => None,
    }
}

/// The id of a nested-collection member.
pub fn luminate_collection_member_collection_id(v: Option<&LuminateCollectionMember>) -> (text: Option<&str>)
    ensures
        opt_str(text) == match v { Some(CollectionMember::Collection(id)) => Some(id@), _ => None::<Seq<char>> },
{
    match v {
        Some(CollectionMember::Collection(id)) => Some(id.as_str()),
        _ => None,
    }
}

/// Releases a collection list. Null is a no-op.
pub fn luminate_collection_list_free(value: Option<Box<LuminateCollectionList>>) {
    drop_value(value);
}

/// Releases a collection snapshot. Null is a no-op.
pub fn luminate_collection_snapshot_free(value: Option<Box<LuminateCollectionSnapshot>>) {
    drop_value(value);
}

/// A sample collection "living-room" named "Living Room", described as
/// "Downstairs lighting", owned by uid 501, of kind "location", with the
/// given members.
pub fn collection(members: Vec<CollectionMember>) -> (c: Collection)
    ensures
        c.id@ == "living-room"@,
        c.name@ == "Living Room"@,
        opt_text(c.description) == Some("Downstairs lighting"@),
        c.owner == OwnerIdentity::Uid(501),
        opt_text(c.kind) == Some("location"@),
        c.members == members,
{
    Collection {
        id: "living-room".to_owned(),
        name: "Living Room".to_owned(),
        description: Some("Downstairs lighting".to_owned()),
        owner: OwnerIdentity::Uid(501),
        kind: Some("location".to_owned()),
        members,
    }
}

/// The sample collection without members, owned by a Windows SID instead.
pub fn sid_owned_collection() -> (c: Collection)
    ensures
        c.id@ == "living-room"@,
        c.name@ == "Living Room"@,
        opt_text(c.description) == Some("Downstairs lighting"@),
        c.owner matches OwnerIdentity::Sid(sid) && sid@ == "S-1-5-21-1-2-3-1000"@,
        opt_text(c.kind) == Some("location"@),
        c.members@.len() == 0,
{
    let base = collection(Vec::new());
    Collection { owner: OwnerIdentity::Sid("S-1-5-21-1-2-3-1000".to_owned()), ..base }
}

/// The sample collection without members.
pub fn collection_fixture() -> (c: Collection)
    ensures
        c.id@ == "living-room"@,
        c.name@ == "Living Room"@,
        opt_text(c.description) == Some("Downstairs lighting"@),
        c.owner == OwnerIdentity::Uid(501),
        opt_text(c.kind) == Some("location"@),
        c.members@.len() == 0,
{
    collection(Vec::new())
}

} // verus!

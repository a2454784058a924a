//! The transport-neutral access-policy model at the C boundary: numeric
//! operation and effect codes, decoding of rule, constraint, binding and
//! resource inputs, and the mutable policy-document builder.

use vstd::prelude::*;

use crate::canonical::{sorted_texts, texts_of, TextMap, TextSet};
use crate::input::{
    arg_bytes, array_arg, read_optional_str, read_owned_str, read_str_array, required_str_outcome,
    str_array_outcome, strings_view,
};
use crate::status::LuminateStatus;

verus! {

/// A semantic operation evaluated by an access policy.
#[derive(Debug, Clone, Copy, PartialEq, Eq, Structural)]
pub enum Operation {
    Observe,
    Refresh,
    Control,
    HardwareAdministration,
    DaemonAdministration,
    ManagePlugins,
    CreateCollection,
    DestroyCollection,
    ModifyCollection,
    AdministerCollections,
    ManagePolicy,
    ManageAuthentication,
    AdministerFrontend,
    CreateScene,
    ModifyScene,
    DestroyScene,
    AdministerScenes,
}

/// Number of operation codes; codes are `0..OPERATION_COUNT`.
pub const OPERATION_COUNT: u32 = 17;

/// The `LUMINATE_POLICY_OP_*` code of an operation.
pub open spec fn operation_code(operation: Operation) -> u32 {
    match operation {
        Operation::Observe => 0,
        Operation::Refresh => 1,
        Operation::Control => 2,
        Operation::HardwareAdministration => 3,
        Operation::DaemonAdministration => 4,
        Operation::ManagePlugins => 5,
        Operation::CreateCollection => 6,
        Operation::DestroyCollection => 7,
        Operation::ModifyCollection => 8,
        Operation::AdministerCollections => 9,
        Operation::ManagePolicy => 10,
        Operation::ManageAuthentication => 11,
        Operation::AdministerFrontend => 12,
        Operation::CreateScene => 13,
        Operation::ModifyScene => 14,
        Operation::DestroyScene => 15,
        Operation::AdministerScenes => 16,
    }
}

/// Encodes an operation as its C code.
pub fn operation_to_u32(operation: Operation) -> (code: u32)
    ensures
        code == operation_code(operation),
        code < OPERATION_COUNT,
{
    match operation {
        Operation::Observe => 0,
        Operation::Refresh => 1,
        Operation::Control => 2,
        Operation::HardwareAdministration => 3,
        Operation::DaemonAdministration => 4,
        Operation::ManagePlugins => 5,
        Operation::CreateCollection => 6,
        Operation::DestroyCollection => 7,
        Operation::ModifyCollection => 8,
        Operation::AdministerCollections => 9,
        Operation::ManagePolicy => 10,
        Operation::ManageAuthentication => 11,
        Operation::AdministerFrontend => 12,
        Operation::CreateScene => 13,
        Operation::ModifyScene => 14,
        Operation::DestroyScene => 15,
        Operation::AdministerScenes => 16,
    }
}

/// Decodes a C operation code; an unrecognized code is `InvalidArgument`.
pub fn operation_from_u32(value: u32) -> (result: Result<Operation, LuminateStatus>)
    ensures
        match result {
            Ok(operation) => operation_code(operation) == value,
            Err(status) => status == LuminateStatus::InvalidArgument && value >= OPERATION_COUNT,
        },
{
    match value {
        0 => Ok(Operation::Observe),
        1 => Ok(Operation::Refresh),
        2 => Ok(Operation::Control),
        3 => Ok(Operation::HardwareAdministration),
        4 => Ok(Operation::DaemonAdministration),
        5 => Ok(Operation::ManagePlugins),
        6 => Ok(Operation::CreateCollection),
        7 => Ok(Operation::DestroyCollection),
        8 => Ok(Operation::ModifyCollection),
        9 => Ok(Operation::AdministerCollections),
        10 => Ok(Operation::ManagePolicy),
        11 => Ok(Operation::ManageAuthentication),
        12 => Ok(Operation::AdministerFrontend),
        13 => Ok(Operation::CreateScene),
        14 => Ok(Operation::ModifyScene),
        15 => Ok(Operation::DestroyScene),
        16 => Ok(Operation::AdministerScenes),
        _ => Err(LuminateStatus::InvalidArgument),
    }
}

/// Operation codes are exactly `0..OPERATION_COUNT`, and decoding and
/// encoding are mutually inverse on them.
pub proof fn lemma_operation_codes_round_trip(operation: Operation, code: u32)
    ensures
        operation_code(operation) < OPERATION_COUNT,
        code < OPERATION_COUNT ==> exists|op: Operation| operation_code(op) == code,
        operation_code(operation) == code ==> (forall|other: Operation| operation_code(other) == code ==> other == operation),
{
    if code < OPERATION_COUNT {
        let op = if code == 0 { Operation::Observe } else if code == 1 { Operation::Refresh }
            else if code == 2 { Operation::Control } else if code == 3 { Operation::HardwareAdministration }
            else if code == 4 { Operation::DaemonAdministration } else if code == 5 { Operation::ManagePlugins }
            else if code == 6 { Operation::CreateCollection } else if code == 7 { Operation::DestroyCollection }
            else if code == 8 { Operation::ModifyCollection } else if code == 9 { Operation::AdministerCollections }
            else if code == 10 { Operation::ManagePolicy } else if code == 11 { Operation::ManageAuthentication }
            else if code == 12 { Operation::AdministerFrontend } else if code == 13 { Operation::CreateScene }
            else if code == 14 { Operation::ModifyScene } else if code == 15 { Operation::DestroyScene }
            else { Operation::AdministerScenes };
        assert(operation_code(op) == code);
    }
}

/// The C policy-operation codes are fixed, in this order from 0: observe,
/// refresh, control, hardware administration, daemon administration,
/// plugin management, collection creation, destruction and modification,
/// collection administration, policy management, authentication
/// management, frontend administration, scene creation, modification and
/// destruction, scene administration.
pub proof fn lemma_operation_code_table()
    ensures
        operation_code(Operation::Observe) == 0,
        operation_code(Operation::Refresh) == 1,
        operation_code(Operation::Control) == 2,
        operation_code(Operation::HardwareAdministration) == 3,
        operation_code(Operation::DaemonAdministration) == 4,
        operation_code(Operation::ManagePlugins) == 5,
        operation_code(Operation::CreateCollection) == 6,
        operation_code(Operation::DestroyCollection) == 7,
        operation_code(Operation::ModifyCollection) == 8,
        operation_code(Operation::AdministerCollections) == 9,
        operation_code(Operation::ManagePolicy) == 10,
        operation_code(Operation::ManageAuthentication) == 11,
        operation_code(Operation::AdministerFrontend) == 12,
        operation_code(Operation::CreateScene) == 13,
        operation_code(Operation::ModifyScene) == 14,
        operation_code(Operation::DestroyScene) == 15,
        operation_code(Operation::AdministerScenes) == 16,
{
}

/// Whether a matching rule allows or denies.
#[derive(Debug, Clone, Copy, PartialEq, Eq, Structural)]
pub enum RuleEffect {
    Allow,
    Deny,
}

/// The `LUMINATE_RULE_EFFECT_*` code of an effect.
pub open spec fn rule_effect_code(effect: RuleEffect) -> u32 {
    match effect {
        RuleEffect::Allow => 0,
        RuleEffect::Deny => 1,
    }
}

/// Decodes a C rule-effect code; an unrecognized code is `InvalidArgument`.
pub fn rule_effect_from_u32(value: u32) -> (result: Result<RuleEffect, LuminateStatus>)
    ensures
        match result {
            Ok(effect) => rule_effect_code(effect) == value,
            Err(status) => status == LuminateStatus::InvalidArgument && value > 1,
        },
{
    match value {
        0 => Ok(RuleEffect::Allow),
        1 => Ok(RuleEffect::Deny),
        _ => Err(LuminateStatus::InvalidArgument),
    }
}

/// Encodes an effect as its C code.
pub fn rule_effect_to_u32(effect: RuleEffect) -> (code: u32)
    ensures
        code == rule_effect_code(effect),
{
    match effect {
        RuleEffect::Allow => 0,
        RuleEffect::Deny => 1,
    }
}

/// Rule-effect codes are exactly `0` and `1`, and each names one effect.
pub proof fn lemma_rule_effect_codes_round_trip(effect: RuleEffect, code: u32)
    ensures
        rule_effect_code(effect) <= 1,
        code <= 1 ==> exists|e: RuleEffect| rule_effect_code(e) == code,
        rule_effect_code(effect) == code ==> (forall|other: RuleEffect| rule_effect_code(other) == code ==> other == effect),
{
    if code <= 1 {
        let e = if code == 0 { RuleEffect::Allow } else { RuleEffect::Deny };
        assert(rule_effect_code(e) == code);
    }
}

/// The C rule-effect codes are fixed: allow 0, deny 1.
pub proof fn lemma_rule_effect_code_table()
    ensures
        rule_effect_code(RuleEffect::Allow) == 0,
        rule_effect_code(RuleEffect::Deny) == 1,
{
}

/// A set of operations, listed in ascending code order.
#[derive(Debug)]
pub struct OperationSet {
    members: Vec<Operation>,
}

/// Strictly ascending operation codes.
pub open spec fn ascending_operations(ops: Seq<Operation>) -> bool {
    forall|i: int, j: int| 0 <= i < j < ops.len() ==> operation_code(#[trigger] ops[i]) < operation_code(#[trigger] ops[j])
}

impl OperationSet {
    /// The members in ascending code order.
    pub closed spec fn spec_members(&self) -> Seq<Operation> {
        self.members@
    }

    #[verifier::type_invariant]
    closed spec fn inv(&self) -> bool {
        ascending_operations(self.members@)
    }

    /// Number of operations in the set.
    pub fn len(&self) -> (n: usize)
        ensures
            n == self.spec_members().len(),
            ascending_operations(self.spec_members()),
    {
        proof { use_type_invariant(self); }
        self.members.len()
    }

    /// Operation at `index` in ascending code order, if in range.
    pub fn at(&self, index: usize) -> (operation: Option<Operation>)
        ensures
            match operation {
                Some(op) => index < self.spec_members().len() && op == self.spec_members()[index as int],
                None => index >= self.spec_members().len(),
            },
    {
        if index < self.members.len() { Some(self.members[index]) } else { None }
    }
}

/// Every code of `codes` names an operation.
pub open spec fn all_codes_valid(codes: Seq<u32>) -> bool {
    forall|i: int| 0 <= i < codes.len() ==> #[trigger] codes[i] < OPERATION_COUNT
}

/// Outcome of decoding a counted operation-code array into a set: a zero
/// count is the empty set, a null array `NullPointer`, any unknown code
/// `InvalidArgument`.
pub open spec fn operations_outcome(values: Option<Seq<u32>>, count: nat) -> Result<Set<u32>, LuminateStatus> {
    if count == 0 {
        Ok(Set::empty())
    } else {
        match values {
            None => Err(LuminateStatus::NullPointer),
            Some(codes) => if all_codes_valid(codes) { Ok(codes.to_set()) } else { Err(LuminateStatus::InvalidArgument) },
        }
    }
}

/// The codes of an operation sequence.
pub open spec fn codes_of(ops: Seq<Operation>) -> Seq<u32> {
    ops.map_values(|op: Operation| operation_code(op))
}

/// The view of an optional code array.
pub open spec fn codes_arg(values: Option<&[u32]>) -> Option<Seq<u32>> {
    match values {
        Some(v) => Some(v@),
        None => None,
    }
}

fn operation_of_code(code: u32) -> (operation: Operation)
    requires
        code < OPERATION_COUNT,
    ensures
        operation_code(operation) == code,
{
    match operation_from_u32(code) {
        Ok(op) => op,
        Err(_) => Operation::Observe,
    }
}

/// Reads `count` operation codes into a set (deduplicated, ascending).
pub fn read_operations(values: Option<&[u32]>, count: usize) -> (result: Result<OperationSet, LuminateStatus>)
    requires
        values matches Some(v) ==> v@.len() == count,
    ensures
        match result {
            Ok(set) => operations_outcome(codes_arg(values), count as nat) == Ok::<Set<u32>, LuminateStatus>(codes_of(set.spec_members()).to_set())
                && ascending_operations(set.spec_members()),
            Err(status) => operations_outcome(codes_arg(values), count as nat) == Err::<Set<u32>, LuminateStatus>(status),
        },
{
    if count == 0 {
        let set = OperationSet { members: Vec::new() };
        assert(codes_of(set.spec_members()).to_set() =~= Set::<u32>::empty());
        return Ok(set);
    }
    let codes = match values {
        None => return Err(LuminateStatus::NullPointer),
        Some(codes) => codes,
    };
    let mut present: Vec<bool> = Vec::new();
    let mut k: u32 = 0;
    while k < OPERATION_COUNT
        invariant
            k <= OPERATION_COUNT,
            present@.len() == k,
            forall|j: int| 0 <= j < k ==> !#[trigger] present@[j],
        decreases OPERATION_COUNT - k,
    {
        present.push(false);
        k = k + 1;
    }
    let mut i: usize = 0;
    while i < codes.len()
        invariant
            0 <= i <= codes@.len(),
            codes_arg(values) == Some(codes@),
            count != 0,
            present@.len() == OPERATION_COUNT,
            forall|j: int| 0 <= j < i ==> #[trigger] codes@[j] < OPERATION_COUNT,
            forall|c: int| 0 <= c < OPERATION_COUNT ==> (#[trigger] present@[c] <==> codes@.take(i as int).contains(c as u32)),
        decreases codes@.len() - i,
    {
        let code = codes[i];
        if code >= OPERATION_COUNT {
            proof {
                assert(!all_codes_valid(codes@));
            }
            return Err(LuminateStatus::InvalidArgument);
        }
        present.set(code as usize, true);
        proof {
            assert forall|c: int| 0 <= c < OPERATION_COUNT implies (#[trigger] present@[c] <==> codes@.take(i + 1).contains(c as u32)) by {
                assert(codes@.take(i + 1) =~= codes@.take(i as int).push(code));
                if codes@.take(i as int).contains(c as u32) {
                    let w = choose|w: int| 0 <= w < i && #[trigger] codes@.take(i as int)[w] == c as u32;
                    assert(codes@.take(i + 1)[w] == c as u32);
                }
                if codes@.take(i + 1).contains(c as u32) {
                    let w = choose|w: int| 0 <= w < i + 1 && #[trigger] codes@.take(i + 1)[w] == c as u32;
                    if w < i { assert(codes@.take(i as int)[w] == c as u32); }
                }
                if c == code { assert(codes@.take(i + 1)[i as int] == code); }
            }
        }
        i = i + 1;
    }
    assert(codes@.take(i as int) =~= codes@);
    let mut members: Vec<Operation> = Vec::new();
    let mut c: u32 = 0;
    while c < OPERATION_COUNT
        invariant
            c <= OPERATION_COUNT,
            present@.len() == OPERATION_COUNT,
            ascending_operations(members@),
            forall|j: int| 0 <= j < members@.len() ==> operation_code(#[trigger] members@[j]) < c,
            forall|x: u32| #![auto] codes_of(members@).contains(x) <==> (x < c && present@[x as int]),
        decreases OPERATION_COUNT - c,
    {
        if present[c as usize] {
            let ghost prev = members@;
            members.push(operation_of_code(c));
            proof {
                assert(codes_of(members@) =~= codes_of(prev).push(c));
                assert forall|x: u32| #![auto] codes_of(members@).contains(x) <==> (x < c + 1 && present@[x as int]) by {
                    if codes_of(prev).contains(x) {
                        let w = choose|w: int| 0 <= w < prev.len() && codes_of(prev)[w] == x;
                        assert(codes_of(members@)[w] == x);
                    }
                    if codes_of(members@).contains(x) {
                        let w = choose|w: int| 0 <= w < members@.len() && codes_of(members@)[w] == x;
                        if w < prev.len() { assert(codes_of(prev)[w] == x); }
                    }
                    if x == c { assert(codes_of(members@)[prev.len() as int] == x); }
                }
            }
        } else {
            proof {
                assert forall|x: u32| #![auto] codes_of(members@).contains(x) <==> (x < c + 1 && present@[x as int]) by {
                    if codes_of(members@).contains(x) {
                        let w = choose|w: int| 0 <= w < members@.len() && codes_of(members@)[w] == x;
                        assert(operation_code(members@[w]) < c);
                    }
                }
            }
        }
        c = c + 1;
    }
    let set = OperationSet { members };
    proof {
        assert forall|x: u32| #![auto] codes_of(set.spec_members()).to_set().contains(x) <==> codes@.to_set().contains(x) by {
            if x < OPERATION_COUNT {
                assert(present@[x as int] <==> codes@.contains(x));
            } else {
                if codes@.contains(x) {
                    let w = choose|w: int| 0 <= w < codes@.len() && codes@[w] == x;
                    assert(codes@[w] < OPERATION_COUNT);
                }
            }
        }
        assert(codes_of(set.spec_members()).to_set() =~= codes@.to_set());
    }
    Ok(set)
}

} // verus!

verus! {

/// Optional constraints applied to every resource a rule is checked against.
/// An empty array (`*_count == 0`) means no constraint on that dimension.
pub struct LuminateResourceConstraintsInput<'a> {
    pub device_ids: Option<&'a [Option<&'a [u8]>]>,
    pub device_id_count: usize,
    pub provider_instances: Option<&'a [Option<&'a [u8]>]>,
    pub provider_instance_count: usize,
    pub has_host_attached: bool,
    pub host_attached: bool,
    pub collections: Option<&'a [Option<&'a [u8]>]>,
    pub collection_count: usize,
}

/// An optional array argument holds exactly its count of entries.
pub open spec fn counted(values: Option<&[Option<&[u8]>]>, count: usize) -> bool {
    values matches Some(items) ==> items@.len() == count
}

impl<'a> LuminateResourceConstraintsInput<'a> {
    pub open spec fn wf(&self) -> bool {
        &&& counted(self.device_ids, self.device_id_count)
        &&& counted(self.provider_instances, self.provider_instance_count)
        &&& counted(self.collections, self.collection_count)
    }
}

/// Constraints that constrain nothing: every array empty and absent, host
/// attachment unspecified.
pub fn empty_resource_constraints<'a>() -> (input: LuminateResourceConstraintsInput<'a>)
    ensures
        input.device_ids is None && input.device_id_count == 0,
        input.provider_instances is None && input.provider_instance_count == 0,
        !input.has_host_attached && !input.host_attached,
        input.collections is None && input.collection_count == 0,
        input.wf(),
{
    LuminateResourceConstraintsInput {
        device_ids: None,
        device_id_count: 0,
        provider_instances: None,
        provider_instance_count: 0,
        has_host_attached: false,
        host_attached: false,
        collections: None,
        collection_count: 0,
    }
}

/// Resource constraints of a rule; each set is in canonical order.
pub struct ResourceConstraints {
    pub device_ids: TextSet,
    pub provider_instances: TextSet,
    pub host_attached: Option<bool>,
    pub collections: TextSet,
}

/// Plain contents of resource constraints.
pub struct ConstraintsView {
    pub device_ids: Set<Seq<char>>,
    pub provider_instances: Set<Seq<char>>,
    pub host_attached: Option<bool>,
    pub collections: Set<Seq<char>>,
}

impl ResourceConstraints {
    pub open spec fn view(&self) -> ConstraintsView {
        ConstraintsView {
            device_ids: self.device_ids.spec_keys().to_set(),
            provider_instances: self.provider_instances.spec_keys().to_set(),
            host_attached: self.host_attached,
            collections: self.collections.spec_keys().to_set(),
        }
    }
}

/// Outcome of decoding constraints: device IDs, then provider instances,
/// then collections; `has_host_attached` selects the optional flag.
pub open spec fn constraints_outcome(input: LuminateResourceConstraintsInput) -> Result<ConstraintsView, LuminateStatus> {
    match str_array_outcome(array_arg(input.device_ids), input.device_id_count as nat) {
        Err(status) => Err(status),
        Ok(devices) => match str_array_outcome(array_arg(input.provider_instances), input.provider_instance_count as nat) {
            Err(status) => Err(status),
            Ok(providers) => match str_array_outcome(array_arg(input.collections), input.collection_count as nat) {
                Err(status) => Err(status),
                Ok(collections) => Ok(ConstraintsView {
                    device_ids: devices.to_set(),
                    provider_instances: providers.to_set(),
                    host_attached: if input.has_host_attached { Some(input.host_attached) } else { None },
                    collections: collections.to_set(),
                }),
            },
        },
    }
}

/// Decoded constraints keep each caller array in its own place: the device
/// IDs, provider instances and collections are the members of the caller's
/// device, provider and collection arrays, and the host-attached flag is the
/// caller's flag exactly when the caller marked it present.
pub proof fn lemma_constraints_fields_from_their_inputs(input: LuminateResourceConstraintsInput)
    ensures
        constraints_outcome(input) matches Ok(c) ==> {
            &&& str_array_outcome(array_arg(input.device_ids), input.device_id_count as nat) matches Ok(d)
                && c.device_ids == d.to_set()
            &&& str_array_outcome(array_arg(input.provider_instances), input.provider_instance_count as nat) matches Ok(p)
                && c.provider_instances == p.to_set()
            &&& str_array_outcome(array_arg(input.collections), input.collection_count as nat) matches Ok(k)
                && c.collections == k.to_set()
            &&& (input.has_host_attached ==> c.host_attached == Some(input.host_attached))
            &&& (!input.has_host_attached ==> c.host_attached is None)
        },
{
}

fn read_text_set(values: Option<&[Option<&[u8]>]>, count: usize) -> (result: Result<TextSet, LuminateStatus>)
    requires
        counted(values, count),
    ensures
        match result {
            Ok(set) => str_array_outcome(array_arg(values), count as nat) is Ok
                && set.spec_keys().to_set() == str_array_outcome(array_arg(values), count as nat)->Ok_0.to_set(),
            Err(status) => str_array_outcome(array_arg(values), count as nat) == Err::<Seq<Seq<char>>, LuminateStatus>(status),
        },
{
    let strings = read_str_array(values, count)?;
    Ok(TextMap::from_texts(strings))
}

/// Decodes resource constraints, deep-copying every string.
pub fn read_resource_constraints(input: &LuminateResourceConstraintsInput) -> (result: Result<ResourceConstraints, LuminateStatus>)
    requires
        input.wf(),
    ensures
        match result {
            Ok(c) => constraints_outcome(*input) == Ok::<ConstraintsView, LuminateStatus>(c.view()),
            Err(status) => constraints_outcome(*input) == Err::<ConstraintsView, LuminateStatus>(status),
        },
{
    let device_ids = read_text_set(input.device_ids, input.device_id_count)?;
    let provider_instances = read_text_set(input.provider_instances, input.provider_instance_count)?;
    let collections = read_text_set(input.collections, input.collection_count)?;
    let host_attached = if input.has_host_attached { Some(input.host_attached) } else { None };
    Ok(ResourceConstraints { device_ids, provider_instances, host_attached, collections })
}

/// One input rule. `reason` may be null; `cache_hint_ms` is read only when
/// `has_cache_hint_ms` is true.
pub struct LuminateRuleInput<'a> {
    pub id: Option<&'a [u8]>,
    pub effect: u32,
    pub operations: Option<&'a [u32]>,
    pub operation_count: usize,
    pub resources: LuminateResourceConstraintsInput<'a>,
    pub reason: Option<&'a [u8]>,
    pub has_cache_hint_ms: bool,
    pub cache_hint_ms: u64,
}

impl<'a> LuminateRuleInput<'a> {
    pub open spec fn wf(&self) -> bool {
        &&& self.resources.wf()
        &&& (self.operations matches Some(v) ==> v@.len() == self.operation_count)
    }
}

/// One rule of a role; borrowed by C callers as a policy rule view.
pub struct LuminatePolicyRule {
    pub id: String,
    pub effect: RuleEffect,
    pub operations: OperationSet,
    pub resources: ResourceConstraints,
    pub reason: Option<String>,
    pub cache_hint_ms: Option<u64>,
}

/// Plain contents of a rule.
pub struct RuleView {
    pub id: Seq<char>,
    pub effect: RuleEffect,
    pub operations: Set<u32>,
    pub resources: ConstraintsView,
    pub reason: Option<Seq<char>>,
    pub cache_hint_ms: Option<u64>,
}

/// The view of an optional owned string.
pub open spec fn opt_string(value: Option<String>) -> Option<Seq<char>> {
    match value {
        Some(s) => Some(s@),
        None => None,
    }
}

/// A rule of a role.
pub type Rule = LuminatePolicyRule;

impl LuminatePolicyRule {
    pub open spec fn view(&self) -> RuleView {
        RuleView {
            id: self.id@,
            effect: self.effect,
            operations: codes_of(self.operations.spec_members()).to_set(),
            resources: self.resources.view(),
            reason: opt_string(self.reason),
            cache_hint_ms: self.cache_hint_ms,
        }
    }
}

/// Outcome of decoding a rule input: the ID string and its validity (a rule
/// ID is non-empty), the effect code, the operations, the constraints, the
/// optional reason, and the optional cache hint, in that order.
///
/// Assumed rule: that `luminate_core`'s rule model rejects exactly an empty
/// rule ID is taken from the behaviour observed at the C surface; its source is not
/// available here.
pub open spec fn rule_outcome(input: LuminateRuleInput) -> Result<RuleView, LuminateStatus> {
    match required_str_outcome(arg_bytes(input.id)) {
        Err(status) => Err(status),
        Ok(id) => if id.len() == 0 {
            Err(LuminateStatus::InvalidArgument)
        } else if input.effect > 1 {
            Err(LuminateStatus::InvalidArgument)
        } else {
            match operations_outcome(codes_arg(input.operations), input.operation_count as nat) {
                Err(status) => Err(status),
                Ok(operations) => match constraints_outcome(input.resources) {
                    Err(status) => Err(status),
                    Ok(resources) => {
                        let reason = if input.reason is None {
                            Ok(None)
                        } else {
                            match required_str_outcome(arg_bytes(input.reason)) {
                                Err(status) => Err(status),
                                Ok(text) => Ok(Some(text)),
                            }
                        };
                        match reason {
                            Err(status) => Err(status),
                            Ok(reason) => Ok(RuleView {
                                id,
                                effect: if input.effect == 0 { RuleEffect::Allow } else { RuleEffect::Deny },
                                operations,
                                resources,
                                reason,
                                cache_hint_ms: if input.has_cache_hint_ms { Some(input.cache_hint_ms) } else { None },
                            }),
                        }
                    },
                },
            }
        },
    }
}

/// Every other field of a decoded rule comes from its own caller field: the
/// ID from the caller's ID, the operations from the caller's operation codes,
/// the constraints from the caller's constraints, and the reason from the
/// caller's reason (absent where the caller passed null).
pub proof fn lemma_decoded_rule_fields_from_their_inputs(input: LuminateRuleInput)
    ensures
        rule_outcome(input) matches Ok(r) ==> {
            &&& required_str_outcome(arg_bytes(input.id)) == Ok::<Seq<char>, LuminateStatus>(r.id)
            &&& operations_outcome(codes_arg(input.operations), input.operation_count as nat)
                == Ok::<Set<u32>, LuminateStatus>(r.operations)
            &&& constraints_outcome(input.resources) == Ok::<ConstraintsView, LuminateStatus>(r.resources)
            &&& (input.reason is None ==> r.reason is None)
            &&& (input.reason is Some ==> r.reason is Some
                && required_str_outcome(arg_bytes(input.reason)) == Ok::<Seq<char>, LuminateStatus>(r.reason->0))
        },
{
}

/// A decoded rule keeps what the caller gave: it allows exactly when the
/// caller passed the allow code 0 and denies exactly when it passed the deny
/// code 1 (any other code is rejected), its effect reports back the caller's
/// code, its ID is non-empty, and its cache hint is present exactly when the
/// caller flagged one, with the caller's value.
pub proof fn lemma_decoded_rule_keeps_its_inputs(input: LuminateRuleInput)
    ensures
        rule_outcome(input) matches Ok(r) ==> {
            &&& input.effect <= 1
            &&& (r.effect == RuleEffect::Allow <==> input.effect == 0)
            &&& (r.effect == RuleEffect::Deny <==> input.effect == 1)
            &&& rule_effect_code(r.effect) == input.effect
            &&& r.id.len() > 0
            &&& r.cache_hint_ms == (if input.has_cache_hint_ms { Some(input.cache_hint_ms) } else { None })
        },
        input.effect > 1 ==> rule_outcome(input) is Err,
{
    lemma_rule_effect_code_table();
}

/// Decodes and deep-copies one rule input.
pub fn read_rule_input(input: &LuminateRuleInput) -> (result: Result<Rule, LuminateStatus>)
    requires
        input.wf(),
    ensures
        match result {
            Ok(rule) => rule_outcome(*input) == Ok::<RuleView, LuminateStatus>(rule.view()),
            Err(status) => rule_outcome(*input) == Err::<RuleView, LuminateStatus>(status),
        },
{
    let id = read_owned_str(input.id)?;
    if id.as_str().is_empty() {
        return Err(LuminateStatus::InvalidArgument);
    }
    let effect = rule_effect_from_u32(input.effect)?;
    let operations = read_operations(input.operations, input.operation_count)?;
    let resources = read_resource_constraints(&input.resources)?;
    let reason = read_optional_str(input.reason)?;
    let cache_hint_ms = if input.has_cache_hint_ms { Some(input.cache_hint_ms) } else { None };
    Ok(LuminatePolicyRule { id, effect, operations, resources, reason, cache_hint_ms })
}

} // verus!

verus! {

/// A role: its parent roles and its ordered rules.
pub struct LuminatePolicyRole {
    pub parents: TextSet,
    pub rules: Vec<Rule>,
}

/// Plain contents of a role.
pub struct RoleView {
    pub parents: Set<Seq<char>>,
    pub rules: Seq<RuleView>,
}

/// The views of a sequence of rules.
pub open spec fn rules_view(rules: Seq<Rule>) -> Seq<RuleView> {
    rules.map_values(|rule: Rule| rule.view())
}

/// A role of a policy document.
pub type Role = LuminatePolicyRole;

impl LuminatePolicyRole {
    pub open spec fn view(&self) -> RoleView {
        RoleView { parents: self.parents.spec_keys().to_set(), rules: rules_view(self.rules@) }
    }

    /// A role with no parents and no rules.
    pub fn empty() -> (role: Role)
        ensures
            role.view() == empty_role_view(),
    {
        let role = LuminatePolicyRole { parents: TextMap::new(), rules: Vec::new() };
        assert(role.view().parents =~= Set::<Seq<char>>::empty());
        assert(role.view().rules =~= Seq::<RuleView>::empty());
        role
    }
}

pub open spec fn empty_role_view() -> RoleView {
    RoleView { parents: Set::empty(), rules: Seq::empty() }
}

/// A binding granting roles to the principals of one authority that match a
/// subject or a group.
pub struct LuminatePolicyBinding {
    pub authority: String,
    pub subjects: TextSet,
    pub groups: TextSet,
    pub roles: TextSet,
}

/// Plain contents of a binding.
pub struct BindingView {
    pub authority: Seq<char>,
    pub subjects: Set<Seq<char>>,
    pub groups: Set<Seq<char>>,
    pub roles: Set<Seq<char>>,
}

/// A binding of a policy document.
pub type Binding = LuminatePolicyBinding;

impl LuminatePolicyBinding {
    pub open spec fn view(&self) -> BindingView {
        BindingView {
            authority: self.authority@,
            subjects: self.subjects.spec_keys().to_set(),
            groups: self.groups.spec_keys().to_set(),
            roles: self.roles.spec_keys().to_set(),
        }
    }
}

/// The views of a sequence of bindings.
pub open spec fn bindings_view(bindings: Seq<Binding>) -> Seq<BindingView> {
    bindings.map_values(|binding: Binding| binding.view())
}

/// The editable source of a policy document: a revision, roles by name, and
/// ordered bindings.
pub struct PolicyDocumentSource {
    pub revision: u64,
    pub roles: TextMap<Role>,
    pub bindings: Vec<Binding>,
}

/// Plain contents of a policy document source.
pub struct SourceView {
    pub revision: u64,
    pub roles: Map<Seq<char>, RoleView>,
    pub bindings: Seq<BindingView>,
}

/// The views of roles by name.
pub open spec fn roles_view(roles: Map<Seq<char>, Role>) -> Map<Seq<char>, RoleView> {
    roles.map_values(|role: Role| role.view())
}

impl PolicyDocumentSource {
    pub open spec fn view(&self) -> SourceView {
        SourceView {
            revision: self.revision,
            roles: roles_view(self.roles.spec_map()),
            bindings: bindings_view(self.bindings@),
        }
    }
}

/// A mutable, deep-copying builder for a policy document. Every setter
/// validates and copies its input immediately.
pub struct LuminatePolicyDocumentBuilder(pub PolicyDocumentSource);

impl LuminatePolicyDocumentBuilder {
    pub open spec fn view(&self) -> SourceView {
        self.0.view()
    }
}

/// Creates an empty builder at the given revision.
pub fn luminate_policy_document_builder_new(revision: u64) -> (builder: LuminatePolicyDocumentBuilder)
    ensures
        builder.view().revision == revision,
        builder.view().roles == Map::<Seq<char>, RoleView>::empty(),
        builder.view().bindings == Seq::<BindingView>::empty(),
{
    let builder = LuminatePolicyDocumentBuilder(PolicyDocumentSource {
        revision,
        roles: TextMap::new(),
        bindings: Vec::new(),
    });
    assert(builder.view().roles =~= Map::<Seq<char>, RoleView>::empty());
    assert(builder.view().bindings =~= Seq::<BindingView>::empty());
    builder
}

/// Sets the builder's revision.
pub fn luminate_policy_document_builder_set_revision(builder: Option<&mut LuminatePolicyDocumentBuilder>, revision: u64) -> (status: LuminateStatus)
    ensures
        builder is None ==> status == LuminateStatus::NullPointer,
        builder matches Some(b) ==> status == LuminateStatus::Success
            && final(b).view() == (SourceView { revision, ..b.view() }),
{
    match builder {
        None => LuminateStatus::NullPointer,
        Some(b) => {
            b.0.revision = revision;
            LuminateStatus::Success
        },
    }
}

} // verus!
verus! {

/// A role's contents, or an empty role when it does not exist.
pub open spec fn role_or_empty(roles: Map<Seq<char>, RoleView>, name: Seq<char>) -> RoleView {
    if roles.contains_key(name) { roles[name] } else { empty_role_view() }
}

/// The roles with `name` created empty if it was missing.
pub open spec fn with_role(roles: Map<Seq<char>, RoleView>, name: Seq<char>) -> Map<Seq<char>, RoleView> {
    roles.insert(name, role_or_empty(roles, name))
}

/// A source with its roles replaced.
pub open spec fn with_roles(source: SourceView, roles: Map<Seq<char>, RoleView>) -> SourceView {
    SourceView { roles, ..source }
}

/// A source with its bindings replaced.
pub open spec fn with_bindings(source: SourceView, bindings: Seq<BindingView>) -> SourceView {
    SourceView { bindings, ..source }
}

/// Creates `name` as an empty role if missing; returns its position.
fn ensure_role(roles: &mut TextMap<Role>, name: String) -> (index: usize)
    ensures
        roles_view(final(roles).spec_map()) == with_role(roles_view(old(roles).spec_map()), name@),
        index < final(roles).spec_len(),
        final(roles).spec_keys()[index as int] == name@,
        final(roles).spec_map().contains_key(name@),
        final(roles).spec_entries()[index as int].1 == final(roles).spec_map()[name@],
{
    let index = ensure_role_position(roles, name);
    let _n = roles.len();
    proof {
        crate::canonical::lemma_index_of_sorted(roles.spec_keys(), index as int);
    }
    index
}

fn ensure_role_position(roles: &mut TextMap<Role>, name: String) -> (index: usize)
    ensures
        roles_view(final(roles).spec_map()) == with_role(roles_view(old(roles).spec_map()), name@),
        index < final(roles).spec_len(),
        final(roles).spec_keys()[index as int] == name@,
        final(roles).spec_map().contains_key(name@),
{
    match roles.find(name.as_str()) {
        Ok(i) => {
            proof {
                let m = old(roles).spec_map();
                assert(m.contains_key(name@));
                assert(with_role(roles_view(m), name@) =~= roles_view(m));
            }
            i
        },
        Err(_) => {
            let key = name.clone();
            let ghost before = roles.spec_map();
            roles.insert(name, Role::empty());
            proof {
                assert(roles_view(roles.spec_map()) =~= roles_view(before).insert(key@, empty_role_view()));
            }
            match roles.find(key.as_str()) {
                Ok(i) => i,
                Err(_) => {
                    assert(roles.spec_map().contains_key(key@));
                    0
                },
            }
        },
    }
}

/// Replaces the role at `index` by applying an edit to its parents.
fn role_insert_parent(roles: &mut TextMap<Role>, index: usize, parent: String)
    requires
        index < old(roles).spec_len(),
    ensures
        roles_view(final(roles).spec_map()) == roles_view(old(roles).spec_map()).insert(
            old(roles).spec_keys()[index as int],
            RoleView {
                parents: old(roles).spec_entries()[index as int].1.view().parents.insert(parent@),
                rules: old(roles).spec_entries()[index as int].1.view().rules,
            },
        ),
        final(roles).spec_keys() == old(roles).spec_keys(),
{
    let mut role = roles.replace_value_at(index, Role::empty());
    role.parents.insert_key(parent);
    let ghost edited = role.view();
    roles.replace_value_at(index, role);
    proof {
        assert(roles_view(roles.spec_map()) =~= roles_view(old(roles).spec_map()).insert(old(roles).spec_keys()[index as int], edited));
    }
}

/// Outcome of `luminate_policy_document_builder_role_add_parent`: creates
/// the parent and the role when missing and adds the parent to the role.
pub open spec fn add_parent_outcome(source: SourceView, role: Option<Seq<u8>>, parent: Option<Seq<u8>>) -> Result<SourceView, LuminateStatus> {
    match required_str_outcome(role) {
        Err(status) => Err(status),
        Ok(r) => match required_str_outcome(parent) {
            Err(status) => Err(status),
            Ok(p) => {
                let roles1 = with_role(source.roles, p);
                let current = role_or_empty(roles1, r);
                Ok(with_roles(source, roles1.insert(r, RoleView { parents: current.parents.insert(p), rules: current.rules })))
            },
        },
    }
}

/// Adds one parent to a role, creating the role and the parent's entry when
/// missing. A missing parent is a build-time validation error, not a
/// builder-time one.
pub fn luminate_policy_document_builder_role_add_parent(
    builder: Option<&mut LuminatePolicyDocumentBuilder>,
    role: Option<&[u8]>,
    parent: Option<&[u8]>,
) -> (status: LuminateStatus)
    ensures
        builder is None ==> status == LuminateStatus::NullPointer,
        builder matches Some(b) ==> match add_parent_outcome(b.view(), arg_bytes(role), arg_bytes(parent)) {
            Ok(v) => status == LuminateStatus::Success && final(b).view() == v,
            Err(s) => status == s && final(b).view() == b.view(),
        },
{
    let b = match builder {
        None => return LuminateStatus::NullPointer,
        Some(b) => b,
    };
    let ghost v0 = b.view();
    let role = match read_owned_str(role) {
        Ok(value) => value,
        Err(status) => return status,
    };
    let parent = match read_owned_str(parent) {
        Ok(value) => value,
        Err(status) => return status,
    };
    let ghost r = role@;
    let ghost p = parent@;
    ensure_role(&mut b.0.roles, parent.clone());
    let index = ensure_role(&mut b.0.roles, role);
    role_insert_parent(&mut b.0.roles, index, parent);
    proof {
        let v = v0;
        let roles1 = with_role(v.roles, p);
        let roles2 = with_role(roles1, r);
        assert(roles2[r] == role_or_empty(roles1, r));
        assert(b.view().roles =~= roles1.insert(r, RoleView { parents: role_or_empty(roles1, r).parents.insert(p), rules: role_or_empty(roles1, r).rules }));
    }
    LuminateStatus::Success
}

} // verus!

verus! {

/// The role stored at `index`, as a view.
pub open spec fn role_at_view(roles: TextMap<Role>, index: int) -> RoleView {
    roles.spec_entries()[index].1.view()
}

fn role_push_rule(roles: &mut TextMap<Role>, index: usize, rule: Rule)
    requires
        index < old(roles).spec_len(),
    ensures
        roles_view(final(roles).spec_map()) == roles_view(old(roles).spec_map()).insert(
            old(roles).spec_keys()[index as int],
            RoleView { parents: role_at_view(*old(roles), index as int).parents, rules: role_at_view(*old(roles), index as int).rules.push(rule.view()) },
        ),
        final(roles).spec_keys() == old(roles).spec_keys(),
{
    let ghost rv = rule.view();
    let mut role = roles.replace_value_at(index, Role::empty());
    let ghost before = role.rules@;
    role.rules.push(rule);
    proof {
        assert(rules_view(role.rules@) =~= rules_view(before).push(rv));
    }
    let ghost edited = role.view();
    roles.replace_value_at(index, role);
    proof {
        assert(roles_view(roles.spec_map()) =~= roles_view(old(roles).spec_map()).insert(old(roles).spec_keys()[index as int], edited));
    }
}

fn role_set_rule(roles: &mut TextMap<Role>, index: usize, position: usize, rule: Rule)
    requires
        index < old(roles).spec_len(),
        position < role_at_view(*old(roles), index as int).rules.len(),
    ensures
        roles_view(final(roles).spec_map()) == roles_view(old(roles).spec_map()).insert(
            old(roles).spec_keys()[index as int],
            RoleView { parents: role_at_view(*old(roles), index as int).parents, rules: role_at_view(*old(roles), index as int).rules.update(position as int, rule.view()) },
        ),
        final(roles).spec_keys() == old(roles).spec_keys(),
{
    let ghost rv = rule.view();
    let mut role = roles.replace_value_at(index, Role::empty());
    let ghost before = role.rules@;
    role.rules.remove(position);
    role.rules.insert(position, rule);
    proof {
        assert(rules_view(role.rules@) =~= rules_view(before).update(position as int, rv));
    }
    let ghost edited = role.view();
    roles.replace_value_at(index, role);
    proof {
        assert(roles_view(roles.spec_map()) =~= roles_view(old(roles).spec_map()).insert(old(roles).spec_keys()[index as int], edited));
    }
}

fn role_delete_rule(roles: &mut TextMap<Role>, index: usize, position: usize)
    requires
        index < old(roles).spec_len(),
        position < role_at_view(*old(roles), index as int).rules.len(),
    ensures
        roles_view(final(roles).spec_map()) == roles_view(old(roles).spec_map()).insert(
            old(roles).spec_keys()[index as int],
            RoleView { parents: role_at_view(*old(roles), index as int).parents, rules: role_at_view(*old(roles), index as int).rules.remove(position as int) },
        ),
        final(roles).spec_keys() == old(roles).spec_keys(),
{
    let mut role = roles.replace_value_at(index, Role::empty());
    let ghost before = role.rules@;
    role.rules.remove(position);
    proof {
        assert(rules_view(role.rules@) =~= rules_view(before).remove(position as int));
    }
    let ghost edited = role.view();
    roles.replace_value_at(index, role);
    proof {
        assert(roles_view(roles.spec_map()) =~= roles_view(old(roles).spec_map()).insert(old(roles).spec_keys()[index as int], edited));
    }
}

fn role_delete_parent(roles: &mut TextMap<Role>, index: usize, parent: &str) -> (removed: bool)
    requires
        index < old(roles).spec_len(),
    ensures
        removed == role_at_view(*old(roles), index as int).parents.contains(parent@),
        roles_view(final(roles).spec_map()) == roles_view(old(roles).spec_map()).insert(
            old(roles).spec_keys()[index as int],
            RoleView { parents: role_at_view(*old(roles), index as int).parents.remove(parent@), rules: role_at_view(*old(roles), index as int).rules },
        ),
        final(roles).spec_keys() == old(roles).spec_keys(),
{
    let mut role = roles.replace_value_at(index, Role::empty());
    let removed = role.parents.remove_key(parent);
    let ghost edited = role.view();
    roles.replace_value_at(index, role);
    proof {
        assert(roles_view(roles.spec_map()) =~= roles_view(old(roles).spec_map()).insert(old(roles).spec_keys()[index as int], edited));
    }
    removed
}

/// Locates an existing role by name.
fn existing_role(roles: &TextMap<Role>, name: &str) -> (index: Option<usize>)
    ensures
        match index {
            Some(i) => i < roles.spec_len() && roles.spec_keys()[i as int] == name@
                && roles.spec_map().contains_key(name@)
                && roles.spec_entries()[i as int].1 == roles.spec_map()[name@],
            None => !roles.spec_map().contains_key(name@),
        },
{
    match roles.find(name) {
        Ok(i) => {
            proof { crate::canonical::lemma_index_of_sorted(roles.spec_keys(), i as int); }
            Some(i)
        },
        Err(_) => None,
    }
}

/// Outcome of `luminate_policy_document_builder_remove_role`.
pub open spec fn remove_role_outcome(source: SourceView, role: Option<Seq<u8>>) -> Result<SourceView, LuminateStatus> {
    match required_str_outcome(role) {
        Err(status) => Err(status),
        Ok(r) => if source.roles.contains_key(r) {
            Ok(with_roles(source, source.roles.remove(r)))
        } else {
            Err(LuminateStatus::InvalidArgument)
        },
    }
}

/// Removes a role and its contents. References to it in parent sets and
/// bindings are left unchanged.
pub fn luminate_policy_document_builder_remove_role(
    builder: Option<&mut LuminatePolicyDocumentBuilder>,
    role: Option<&[u8]>,
) -> (status: LuminateStatus)
    ensures
        builder is None ==> status == LuminateStatus::NullPointer,
        builder matches Some(b) ==> match remove_role_outcome(b.view(), arg_bytes(role)) {
            Ok(v) => status == LuminateStatus::Success && final(b).view() == v,
            Err(s) => status == s && final(b).view() == b.view(),
        },
{
    let b = match builder {
        None => return LuminateStatus::NullPointer,
        Some(b) => b,
    };
    let ghost v0 = b.view();
    let role = match crate::input::read_required_str(role) {
        Ok(value) => value,
        Err(status) => return status,
    };
    let ghost before = b.0.roles.spec_map();
    match b.0.roles.remove(role) {
        None => {
            proof {
                assert(roles_view(b.0.roles.spec_map()) =~= roles_view(before));
            }
            LuminateStatus::InvalidArgument
        },
        Some(_) => {
            proof {
                assert(roles_view(b.0.roles.spec_map()) =~= roles_view(before).remove(role@));
            }
            LuminateStatus::Success
        },
    }
}

/// Outcome of `luminate_policy_document_builder_role_remove_parent`: both
/// the role and the parent relationship must exist.
pub open spec fn remove_parent_outcome(source: SourceView, role: Option<Seq<u8>>, parent: Option<Seq<u8>>) -> Result<SourceView, LuminateStatus> {
    match required_str_outcome(role) {
        Err(status) => Err(status),
        Ok(r) => match required_str_outcome(parent) {
            Err(status) => Err(status),
            Ok(p) => if !source.roles.contains_key(r) || !source.roles[r].parents.contains(p) {
                Err(LuminateStatus::InvalidArgument)
            } else {
                Ok(with_roles(source, source.roles.insert(r, RoleView { parents: source.roles[r].parents.remove(p), rules: source.roles[r].rules })))
            },
        },
    }
}

/// Removes one parent from a role.
pub fn luminate_policy_document_builder_role_remove_parent(
    builder: Option<&mut LuminatePolicyDocumentBuilder>,
    role: Option<&[u8]>,
    parent: Option<&[u8]>,
) -> (status: LuminateStatus)
    ensures
        builder is None ==> status == LuminateStatus::NullPointer,
        builder matches Some(b) ==> match remove_parent_outcome(b.view(), arg_bytes(role), arg_bytes(parent)) {
            Ok(v) => status == LuminateStatus::Success && final(b).view() == v,
            Err(s) => status == s && final(b).view() == b.view(),
        },
{
    let b = match builder {
        None => return LuminateStatus::NullPointer,
        Some(b) => b,
    };
    let ghost v0 = b.view();
    let role = match crate::input::read_required_str(role) {
        Ok(value) => value,
        Err(status) => return status,
    };
    let parent = match crate::input::read_required_str(parent) {
        Ok(value) => value,
        Err(status) => return status,
    };
    let index = match existing_role(&b.0.roles, role) {
        None => return LuminateStatus::InvalidArgument,
        Some(i) => i,
    };
    if !b.0.roles.value_at(index).parents.contains(parent) {
        return LuminateStatus::InvalidArgument;
    }
    let _removed = role_delete_parent(&mut b.0.roles, index, parent);
    LuminateStatus::Success
}

/// Outcome of `luminate_policy_document_builder_role_add_rule`: the role
/// name, then a non-null rule, then the rule's own decoding; the rule is
/// appended to the role, which is created when missing.
pub open spec fn add_rule_outcome(source: SourceView, role: Option<Seq<u8>>, rule: Option<LuminateRuleInput>) -> Result<SourceView, LuminateStatus> {
    match required_str_outcome(role) {
        Err(status) => Err(status),
        Ok(r) => match rule {
            None => Err(LuminateStatus::NullPointer),
            Some(input) => match rule_outcome(input) {
                Err(status) => Err(status),
                Ok(decoded) => {
                    let current = role_or_empty(source.roles, r);
                    Ok(with_roles(source, source.roles.insert(r, RoleView { parents: current.parents, rules: current.rules.push(decoded) })))
                },
            },
        },
    }
}

/// The optional rule argument, by value.
pub open spec fn rule_arg<'a>(rule: Option<&LuminateRuleInput<'a>>) -> Option<LuminateRuleInput<'a>> {
    match rule {
        Some(r) => Some(*r),
        None => None,
    }
}

/// Appends one rule to a role, creating the role when missing.
pub fn luminate_policy_document_builder_role_add_rule(
    builder: Option<&mut LuminatePolicyDocumentBuilder>,
    role_name: Option<&[u8]>,
    rule: Option<&LuminateRuleInput>,
) -> (status: LuminateStatus)
    requires
        rule matches Some(r) ==> r.wf(),
    ensures
        builder is None ==> status == LuminateStatus::NullPointer,
        builder matches Some(b) ==> match add_rule_outcome(b.view(), arg_bytes(role_name), rule_arg(rule)) {
            Ok(v) => status == LuminateStatus::Success && final(b).view() == v,
            Err(s) => status == s && final(b).view() == b.view(),
        },
{
    let b = match builder {
        None => return LuminateStatus::NullPointer,
        Some(b) => b,
    };
    let ghost v0 = b.view();
    let role_name = match read_owned_str(role_name) {
        Ok(value) => value,
        Err(status) => return status,
    };
    let rule = match rule {
        None => return LuminateStatus::NullPointer,
        Some(rule) => rule,
    };
    let rule = match read_rule_input(rule) {
        Ok(value) => value,
        Err(status) => return status,
    };
    let ghost r = role_name@;
    let ghost decoded = rule.view();
    let index = ensure_role(&mut b.0.roles, role_name);
    proof {
        assert(roles_view(b.0.roles.spec_map())[r] == b.0.roles.spec_map()[r].view());
        assert(role_at_view(b.0.roles, index as int) == role_or_empty(v0.roles, r));
    }
    role_push_rule(&mut b.0.roles, index, rule);
    proof {
        assert(b.view().roles =~= v0.roles.insert(r, RoleView { parents: role_or_empty(v0.roles, r).parents, rules: role_or_empty(v0.roles, r).rules.push(decoded) }));
    }
    LuminateStatus::Success
}

} // verus!

verus! {

/// Outcome of `luminate_policy_document_builder_role_replace_rule`: the role
/// must exist and have a rule at `index`; then a non-null, decodable rule
/// replaces it in place.
pub open spec fn replace_rule_outcome(source: SourceView, role: Option<Seq<u8>>, index: usize, rule: Option<LuminateRuleInput>) -> Result<SourceView, LuminateStatus> {
    match required_str_outcome(role) {
        Err(status) => Err(status),
        Ok(r) => if !source.roles.contains_key(r) || index >= source.roles[r].rules.len() {
            Err(LuminateStatus::InvalidArgument)
        } else {
            match rule {
                None => Err(LuminateStatus::NullPointer),
                Some(input) => match rule_outcome(input) {
                    Err(status) => Err(status),
                    Ok(decoded) => Ok(with_roles(source, source.roles.insert(r, RoleView {
                        parents: source.roles[r].parents,
                        rules: source.roles[r].rules.update(index as int, decoded),
                    }))),
                },
            }
        },
    }
}

/// Replaces the rule at `index` of a role, preserving its position.
pub fn luminate_policy_document_builder_role_replace_rule(
    builder: Option<&mut LuminatePolicyDocumentBuilder>,
    role_name: Option<&[u8]>,
    index: usize,
    rule: Option<&LuminateRuleInput>,
) -> (status: LuminateStatus)
    requires
        rule matches Some(r) ==> r.wf(),
    ensures
        builder is None ==> status == LuminateStatus::NullPointer,
        builder matches Some(b) ==> match replace_rule_outcome(b.view(), arg_bytes(role_name), index, rule_arg(rule)) {
            Ok(v) => status == LuminateStatus::Success && final(b).view() == v,
            Err(s) => status == s && final(b).view() == b.view(),
        },
{
    let b = match builder {
        None => return LuminateStatus::NullPointer,
        Some(b) => b,
    };
    let ghost v0 = b.view();
    let role_name = match crate::input::read_required_str(role_name) {
        Ok(value) => value,
        Err(status) => return status,
    };
    let position = match existing_role(&b.0.roles, role_name) {
        None => return LuminateStatus::InvalidArgument,
        Some(i) => i,
    };
    proof {
        assert(roles_view(b.0.roles.spec_map())[role_name@] == b.0.roles.spec_map()[role_name@].view());
    }
    if index >= b.0.roles.value_at(position).rules.len() {
        return LuminateStatus::InvalidArgument;
    }
    let rule = match rule {
        None => return LuminateStatus::NullPointer,
        Some(rule) => rule,
    };
    let rule = match read_rule_input(rule) {
        Ok(value) => value,
        Err(status) => return status,
    };
    let ghost decoded = rule.view();
    role_set_rule(&mut b.0.roles, position, index, rule);
    proof {
        assert(b.view().roles =~= v0.roles.insert(role_name@, RoleView {
            parents: v0.roles[role_name@].parents,
            rules: v0.roles[role_name@].rules.update(index as int, decoded),
        }));
    }
    LuminateStatus::Success
}

/// Outcome of `luminate_policy_document_builder_role_remove_rule`.
pub open spec fn remove_rule_outcome(source: SourceView, role: Option<Seq<u8>>, index: usize) -> Result<SourceView, LuminateStatus> {
    match required_str_outcome(role) {
        Err(status) => Err(status),
        Ok(r) => if !source.roles.contains_key(r) || index >= source.roles[r].rules.len() {
            Err(LuminateStatus::InvalidArgument)
        } else {
            Ok(with_roles(source, source.roles.insert(r, RoleView {
                parents: source.roles[r].parents,
                rules: source.roles[r].rules.remove(index as int),
            })))
        },
    }
}

/// Removes the rule at `index` from a role.
pub fn luminate_policy_document_builder_role_remove_rule(
    builder: Option<&mut LuminatePolicyDocumentBuilder>,
    role_name: Option<&[u8]>,
    index: usize,
) -> (status: LuminateStatus)
    ensures
        builder is None ==> status == LuminateStatus::NullPointer,
        builder matches Some(b) ==> match remove_rule_outcome(b.view(), arg_bytes(role_name), index) {
            Ok(v) => status == LuminateStatus::Success && final(b).view() == v,
            Err(s) => status == s && final(b).view() == b.view(),
        },
{
    let b = match builder {
        None => return LuminateStatus::NullPointer,
        Some(b) => b,
    };
    let ghost v0 = b.view();
    let role_name = match crate::input::read_required_str(role_name) {
        Ok(value) => value,
        Err(status) => return status,
    };
    let position = match existing_role(&b.0.roles, role_name) {
        None => return LuminateStatus::InvalidArgument,
        Some(i) => i,
    };
    proof {
        assert(roles_view(b.0.roles.spec_map())[role_name@] == b.0.roles.spec_map()[role_name@].view());
    }
    if index >= b.0.roles.value_at(position).rules.len() {
        return LuminateStatus::InvalidArgument;
    }
    role_delete_rule(&mut b.0.roles, position, index);
    proof {
        assert(b.view().roles =~= v0.roles.insert(role_name@, RoleView {
            parents: v0.roles[role_name@].parents,
            rules: v0.roles[role_name@].rules.remove(index as int),
        }));
    }
    LuminateStatus::Success
}

/// Outcome of decoding a binding: the authority, then subjects, groups and
/// roles (each deduplicated into a set).
pub open spec fn binding_outcome(
    authority: Option<Seq<u8>>,
    subjects: Option<Seq<Option<Seq<u8>>>>, subject_count: nat,
    groups: Option<Seq<Option<Seq<u8>>>>, group_count: nat,
    roles: Option<Seq<Option<Seq<u8>>>>, role_count: nat,
) -> Result<BindingView, LuminateStatus> {
    match required_str_outcome(authority) {
        Err(status) => Err(status),
        Ok(a) => match str_array_outcome(subjects, subject_count) {
            Err(status) => Err(status),
            Ok(s) => match str_array_outcome(groups, group_count) {
                Err(status) => Err(status),
                Ok(g) => match str_array_outcome(roles, role_count) {
                    Err(status) => Err(status),
                    Ok(r) => Ok(BindingView { authority: a, subjects: s.to_set(), groups: g.to_set(), roles: r.to_set() }),
                },
            },
        },
    }
}

/// A decoded binding keeps each caller field in its own place: the authority
/// is the caller's authority, and the subjects, groups and roles are the
/// members of the caller's subject, group and role arrays.
pub proof fn lemma_binding_fields_from_their_inputs(
    authority: Option<Seq<u8>>,
    subjects: Option<Seq<Option<Seq<u8>>>>, subject_count: nat,
    groups: Option<Seq<Option<Seq<u8>>>>, group_count: nat,
    roles: Option<Seq<Option<Seq<u8>>>>, role_count: nat,
)
    ensures
        binding_outcome(authority, subjects, subject_count, groups, group_count, roles, role_count) matches Ok(b) ==> {
            &&& required_str_outcome(authority) == Ok::<Seq<char>, LuminateStatus>(b.authority)
            &&& str_array_outcome(subjects, subject_count) matches Ok(s) && b.subjects == s.to_set()
            &&& str_array_outcome(groups, group_count) matches Ok(g) && b.groups == g.to_set()
            &&& str_array_outcome(roles, role_count) matches Ok(r) && b.roles == r.to_set()
        },
{
}

/// The C inputs of one binding.
pub struct LuminateBindingInput<'a> {
    pub authority: Option<&'a [u8]>,
    pub subjects: Option<&'a [Option<&'a [u8]>]>,
    pub subject_count: usize,
    pub groups: Option<&'a [Option<&'a [u8]>]>,
    pub group_count: usize,
    pub roles: Option<&'a [Option<&'a [u8]>]>,
    pub role_count: usize,
}

impl<'a> LuminateBindingInput<'a> {
    pub open spec fn wf(&self) -> bool {
        &&& counted(self.subjects, self.subject_count)
        &&& counted(self.groups, self.group_count)
        &&& counted(self.roles, self.role_count)
    }

    pub open spec fn outcome(&self) -> Result<BindingView, LuminateStatus> {
        binding_outcome(arg_bytes(self.authority), array_arg(self.subjects), self.subject_count as nat,
            array_arg(self.groups), self.group_count as nat, array_arg(self.roles), self.role_count as nat)
    }
}

/// Decodes and deep-copies one binding.
pub fn read_binding_input(input: &LuminateBindingInput) -> (result: Result<Binding, LuminateStatus>)
    requires
        input.wf(),
    ensures
        match result {
            Ok(binding) => input.outcome() == Ok::<BindingView, LuminateStatus>(binding.view()),
            Err(status) => input.outcome() == Err::<BindingView, LuminateStatus>(status),
        },
{
    let authority = read_owned_str(input.authority)?;
    let subjects = read_text_set(input.subjects, input.subject_count)?;
    let groups = read_text_set(input.groups, input.group_count)?;
    let roles = read_text_set(input.roles, input.role_count)?;
    Ok(LuminatePolicyBinding { authority, subjects, groups, roles })
}

/// Appends one binding.
pub fn luminate_policy_document_builder_add_binding(
    builder: Option<&mut LuminatePolicyDocumentBuilder>,
    authority: Option<&[u8]>,
    subjects: Option<&[Option<&[u8]>]>,
    subject_count: usize,
    groups: Option<&[Option<&[u8]>]>,
    group_count: usize,
    roles: Option<&[Option<&[u8]>]>,
    role_count: usize,
) -> (status: LuminateStatus)
    requires
        counted(subjects, subject_count),
        counted(groups, group_count),
        counted(roles, role_count),
    ensures
        builder is None ==> status == LuminateStatus::NullPointer,
        builder matches Some(b) ==> match binding_outcome(arg_bytes(authority), array_arg(subjects), subject_count as nat, array_arg(groups), group_count as nat, array_arg(roles), role_count as nat) {
            Ok(decoded) => status == LuminateStatus::Success
                && final(b).view() == with_bindings(b.view(), b.view().bindings.push(decoded)),
            Err(s) => status == s && final(b).view() == b.view(),
        },
{
    let b = match builder {
        None => return LuminateStatus::NullPointer,
        Some(b) => b,
    };
    let binding = LuminateBindingInput { authority, subjects, subject_count, groups, group_count, roles, role_count };
    let binding = match read_binding_input(&binding) {
        Ok(value) => value,
        Err(status) => return status,
    };
    let ghost before = b.0.bindings@;
    let ghost decoded = binding.view();
    b.0.bindings.push(binding);
    proof {
        assert(bindings_view(b.0.bindings@) =~= bindings_view(before).push(decoded));
    }
    LuminateStatus::Success
}

/// Replaces the binding at `index`; the index is checked before the input
/// is decoded.
pub fn luminate_policy_document_builder_replace_binding(
    builder: Option<&mut LuminatePolicyDocumentBuilder>,
    index: usize,
    authority: Option<&[u8]>,
    subjects: Option<&[Option<&[u8]>]>,
    subject_count: usize,
    groups: Option<&[Option<&[u8]>]>,
    group_count: usize,
    roles: Option<&[Option<&[u8]>]>,
    role_count: usize,
) -> (status: LuminateStatus)
    requires
        counted(subjects, subject_count),
        counted(groups, group_count),
        counted(roles, role_count),
    ensures
        builder is None ==> status == LuminateStatus::NullPointer,
        builder matches Some(b) ==> if index >= b.view().bindings.len() {
            status == LuminateStatus::InvalidArgument && final(b).view() == b.view()
        } else {
            match binding_outcome(arg_bytes(authority), array_arg(subjects), subject_count as nat, array_arg(groups), group_count as nat, array_arg(roles), role_count as nat) {
                Ok(decoded) => status == LuminateStatus::Success
                    && final(b).view() == with_bindings(b.view(), b.view().bindings.update(index as int, decoded)),
                Err(s) => status == s && final(b).view() == b.view(),
            }
        },
{
    let b = match builder {
        None => return LuminateStatus::NullPointer,
        Some(b) => b,
    };
    if index >= b.0.bindings.len() {
        return LuminateStatus::InvalidArgument;
    }
    let binding = LuminateBindingInput { authority, subjects, subject_count, groups, group_count, roles, role_count };
    let binding = match read_binding_input(&binding) {
        Ok(value) => value,
        Err(status) => return status,
    };
    let ghost before = b.0.bindings@;
    let ghost decoded = binding.view();
    b.0.bindings.remove(index);
    b.0.bindings.insert(index, binding);
    proof {
        assert(bindings_view(b.0.bindings@) =~= bindings_view(before).update(index as int, decoded));
    }
    LuminateStatus::Success
}

/// Removes the binding at `index`.
pub fn luminate_policy_document_builder_remove_binding(
    builder: Option<&mut LuminatePolicyDocumentBuilder>,
    index: usize,
) -> (status: LuminateStatus)
    ensures
        builder is None ==> status == LuminateStatus::NullPointer,
        builder matches Some(b) ==> if index >= b.view().bindings.len() {
            status == LuminateStatus::InvalidArgument && final(b).view() == b.view()
        } else {
            status == LuminateStatus::Success
                && final(b).view() == with_bindings(b.view(), b.view().bindings.remove(index as int))
        },
{
    let b = match builder {
        None => return LuminateStatus::NullPointer,
        Some(b) => b,
    };
    if index >= b.0.bindings.len() {
        return LuminateStatus::InvalidArgument;
    }
    let ghost before = b.0.bindings@;
    b.0.bindings.remove(index);
    proof {
        assert(bindings_view(b.0.bindings@) =~= bindings_view(before).remove(index as int));
    }
    LuminateStatus::Success
}

} // verus!

verus! {

/// An immutable access policy document, as validated by the policy model.
pub struct LuminatePolicyDocument(pub PolicyDocumentSource);

/// The `index`-th text of a set in canonical order, when in range.
pub open spec fn set_text_at(keys: Seq<Seq<char>>, index: usize) -> Option<Seq<char>> {
    if index < keys.len() { Some(keys[index as int]) } else { None }
}

/// The view of an optional borrowed string.
pub open spec fn opt_str(value: Option<&str>) -> Option<Seq<char>> {
    match value {
        Some(t) => Some(t@),
        None => None,
    }
}

fn text_set_at(set: &TextSet, index: usize) -> (text: Option<&str>)
    ensures
        opt_str(text) == set_text_at(set.spec_keys(), index),
{
    set.key_at_checked(index)
}

/// A built document's revision, or 0 for a null document.
pub fn luminate_policy_document_revision(document: Option<&LuminatePolicyDocument>) -> (revision: u64)
    ensures
        revision == match document { Some(d) => d.0.revision, None => 0 },
{
    match document {
        Some(d) => d.0.revision,
        None => 0,
    }
}

/// Number of roles in a document.
pub fn luminate_policy_document_role_count(document: Option<&LuminatePolicyDocument>) -> (count: usize)
    ensures
        count == match document { Some(d) => d.0.roles.spec_len(), None => 0 },
{
    match document {
        Some(d) => d.0.roles.len(),
        None => 0,
    }
}

/// Role name at `role_index`, in canonical order.
pub fn luminate_policy_document_role_name_at(document: Option<&LuminatePolicyDocument>, role_index: usize) -> (name: Option<&str>)
    ensures
        opt_str(name) == match document { Some(d) => set_text_at(d.0.roles.spec_keys(), role_index), None => None::<Seq<char>> },
{
    match document {
        Some(d) => d.0.roles.key_at_checked(role_index),
        None => None,
    }
}

/// Borrowed role at `role_index`, in canonical order.
pub fn luminate_policy_document_role_at(document: Option<&LuminatePolicyDocument>, role_index: usize) -> (role: Option<&LuminatePolicyRole>)
    ensures
        match document {
            Some(d) => if role_index < d.0.roles.spec_len() {
                role == Some(&d.0.roles.spec_entries()[role_index as int].1)
            } else {
                role is None
            },
            None => role is None,
        },
{
    match document {
        Some(d) => if role_index < d.0.roles.len() { Some(d.0.roles.value_at(role_index)) } else { None },
        None => None,
    }
}

pub fn luminate_policy_role_parent_count(role: Option<&LuminatePolicyRole>) -> (count: usize)
    ensures
        count == match role { Some(r) => r.parents.spec_len(), None => 0 },
{
    match role {
        Some(r) => r.parents.len(),
        None => 0,
    }
}

/// Parent role name at `index`, in canonical order.
pub fn luminate_policy_role_parent_at(role: Option<&LuminatePolicyRole>, index: usize) -> (name: Option<&str>)
    ensures
        opt_str(name) == match role { Some(r) => set_text_at(r.parents.spec_keys(), index), None => None::<Seq<char>> },
{
    match role {
        Some(r) => text_set_at(&r.parents, index),
        None => None,
    }
}

pub fn luminate_policy_role_rule_count(role: Option<&LuminatePolicyRole>) -> (count: usize)
    ensures
        count == match role { Some(r) => r.rules@.len(), None => 0 },
{
    match role {
        Some(r) => r.rules.len(),
        None => 0,
    }
}

/// Borrowed rule at `index`.
pub fn luminate_policy_role_rule_at(role: Option<&LuminatePolicyRole>, index: usize) -> (rule: Option<&LuminatePolicyRule>)
    ensures
        match role {
            Some(r) => if index < r.rules@.len() { rule == Some(&r.rules@[index as int]) } else { rule is None },
            None => rule is None,
        },
{
    match role {
        Some(r) => if index < r.rules.len() { Some(&r.rules[index]) } else { None },
        None => None,
    }
}

pub fn luminate_policy_rule_id(rule: Option<&LuminatePolicyRule>) -> (id: Option<&str>)
    ensures
        opt_str(id) == match rule { Some(r) => Some(r.id@), None => None::<Seq<char>> },
{
    match rule {
        Some(r) => Some(r.id.as_str()),
        None => None,
    }
}

/// Effect code of a rule, or `u32::MAX` for a null rule.
pub fn luminate_policy_rule_effect(rule: Option<&LuminatePolicyRule>) -> (code: u32)
    ensures
        code == match rule { Some(r) => rule_effect_code(r.effect), None => u32::MAX },
{
    match rule {
        Some(r) => rule_effect_to_u32(r.effect),
        None => u32::MAX,
    }
}

pub fn luminate_policy_rule_operation_count(rule: Option<&LuminatePolicyRule>) -> (count: usize)
    ensures
        count == match rule { Some(r) => r.operations.spec_members().len(), None => 0 },
{
    match rule {
        Some(r) => r.operations.len(),
        None => 0,
    }
}

/// Operation code at `index`, in ascending order, or `u32::MAX`.
pub fn luminate_policy_rule_operation_at(rule: Option<&LuminatePolicyRule>, index: usize) -> (code: u32)
    ensures
        code == match rule {
            Some(r) => if index < r.operations.spec_members().len() {
                operation_code(r.operations.spec_members()[index as int])
            } else {
                u32::MAX
            },
            None => u32::MAX,
        },
{
    match rule {
        Some(r) => match r.operations.at(index) {
            Some(op) => operation_to_u32(op),
            None => u32::MAX,
        },
        None => u32::MAX,
    }
}

/// Reason attached to a rule, or absent.
pub fn luminate_policy_rule_reason(rule: Option<&LuminatePolicyRule>) -> (reason: Option<&str>)
    ensures
        opt_str(reason) == match rule { Some(r) => opt_string(r.reason), None => None::<Seq<char>> },
{
    match rule {
        Some(r) => match &r.reason {
            Some(text) => Some(text.as_str()),
            None => None,
        },
        None => None,
    }
}

/// Writes a rule's cache hint in milliseconds when present.
pub fn luminate_policy_rule_cache_hint_ms(rule: Option<&LuminatePolicyRule>, out_cache_hint_ms: Option<&mut u64>) -> (written: bool)
    ensures
        written == (rule matches Some(r) && r.cache_hint_ms is Some && out_cache_hint_ms is Some),
        out_cache_hint_ms matches Some(out) ==> (if written { *final(out) == rule->0.cache_hint_ms->0 } else { *final(out) == *out }),
{
    match (rule, out_cache_hint_ms) {
        (Some(r), Some(out)) => match r.cache_hint_ms {
            Some(hint) => {
                *out = hint;
                true
            },
            None => false,
        },
        _ => false,
    }
}

pub fn luminate_policy_rule_device_id_count(rule: Option<&LuminatePolicyRule>) -> (count: usize)
    ensures
        count == match rule { Some(r) => r.resources.device_ids.spec_len(), None => 0 },
{
    match rule {
        Some(r) => r.resources.device_ids.len(),
        None => 0,
    }
}

pub fn luminate_policy_rule_device_id_at(rule: Option<&LuminatePolicyRule>, index: usize) -> (text: Option<&str>)
    ensures
        opt_str(text) == match rule { Some(r) => set_text_at(r.resources.device_ids.spec_keys(), index), None => None::<Seq<char>> },
{
    match rule {
        Some(r) => text_set_at(&r.resources.device_ids, index),
        None => None,
    }
}

pub fn luminate_policy_rule_provider_instance_count(rule: Option<&LuminatePolicyRule>) -> (count: usize)
    ensures
        count == match rule { Some(r) => r.resources.provider_instances.spec_len(), None => 0 },
{
    match rule {
        Some(r) => r.resources.provider_instances.len(),
        None => 0,
    }
}

pub fn luminate_policy_rule_provider_instance_at(rule: Option<&LuminatePolicyRule>, index: usize) -> (text: Option<&str>)
    ensures
        opt_str(text) == match rule { Some(r) => set_text_at(r.resources.provider_instances.spec_keys(), index), None => None::<Seq<char>> },
{
    match rule {
        Some(r) => text_set_at(&r.resources.provider_instances, index),
        None => None,
    }
}

pub fn luminate_policy_rule_collection_count(rule: Option<&LuminatePolicyRule>) -> (count: usize)
    ensures
        count == match rule { Some(r) => r.resources.collections.spec_len(), None => 0 },
{
    match rule {
        Some(r) => r.resources.collections.len(),
        None => 0,
    }
}

pub fn luminate_policy_rule_collection_at(rule: Option<&LuminatePolicyRule>, index: usize) -> (text: Option<&str>)
    ensures
        opt_str(text) == match rule { Some(r) => set_text_at(r.resources.collections.spec_keys(), index), None => None::<Seq<char>> },
{
    match rule {
        Some(r) => text_set_at(&r.resources.collections, index),
        None => None,
    }
}

/// Writes a rule's host-attachment constraint when present.
pub fn luminate_policy_rule_host_attached(rule: Option<&LuminatePolicyRule>, out_host_attached: Option<&mut bool>) -> (written: bool)
    ensures
        written == (rule matches Some(r) && r.resources.host_attached is Some && out_host_attached is Some),
        out_host_attached matches Some(out) ==> (if written { *final(out) == rule->0.resources.host_attached->0 } else { *final(out) == *out }),
{
    match (rule, out_host_attached) {
        (Some(r), Some(out)) => match r.resources.host_attached {
            Some(flag) => {
                *out = flag;
                true
            },
            None => false,
        },
        _ => false,
    }
}

pub fn luminate_policy_document_binding_count(document: Option<&LuminatePolicyDocument>) -> (count: usize)
    ensures
        count == match document { Some(d) => d.0.bindings@.len(), None => 0 },
{
    match document {
        Some(d) => d.0.bindings.len(),
        None => 0,
    }
}

/// Borrowed binding at `index`.
pub fn luminate_policy_document_binding_at(document: Option<&LuminatePolicyDocument>, index: usize) -> (binding: Option<&LuminatePolicyBinding>)
    ensures
        match document {
            Some(d) => if index < d.0.bindings@.len() { binding == Some(&d.0.bindings@[index as int]) } else { binding is None },
            None => binding is None,
        },
{
    match document {
        Some(d) => if index < d.0.bindings.len() { Some(&d.0.bindings[index]) } else { None },
        None => None,
    }
}

pub fn luminate_policy_binding_authority(binding: Option<&LuminatePolicyBinding>) -> (text: Option<&str>)
    ensures
        opt_str(text) == match binding { Some(b) => Some(b.authority@), None => None::<Seq<char>> },
{
    match binding {
        Some(b) => Some(b.authority.as_str()),
        None => None,
    }
}

pub fn luminate_policy_binding_subject_count(binding: Option<&LuminatePolicyBinding>) -> (count: usize)
    ensures
        count == match binding { Some(b) => b.subjects.spec_len(), None => 0 },
{
    match binding {
        Some(b) => b.subjects.len(),
        None => 0,
    }
}

pub fn luminate_policy_binding_subject_at(binding: Option<&LuminatePolicyBinding>, index: usize) -> (text: Option<&str>)
    ensures
        opt_str(text) == match binding { Some(b) => set_text_at(b.subjects.spec_keys(), index), None => None::<Seq<char>> },
{
    match binding {
        Some(b) => text_set_at(&b.subjects, index),
        None => None,
    }
}

pub fn luminate_policy_binding_group_count(binding: Option<&LuminatePolicyBinding>) -> (count: usize)
    ensures
        count == match binding { Some(b) => b.groups.spec_len(), None => 0 },
{
    match binding {
        Some(b) => b.groups.len(),
        None => 0,
    }
}

pub fn luminate_policy_binding_group_at(binding: Option<&LuminatePolicyBinding>, index: usize) -> (text: Option<&str>)
    ensures
        opt_str(text) == match binding { Some(b) => set_text_at(b.groups.spec_keys(), index), None => None::<Seq<char>> },
{
    match binding {
        Some(b) => text_set_at(&b.groups, index),
        None => None,
    }
}

pub fn luminate_policy_binding_role_count(binding: Option<&LuminatePolicyBinding>) -> (count: usize)
    ensures
        count == match binding { Some(b) => b.roles.spec_len(), None => 0 },
{
    match binding {
        Some(b) => b.roles.len(),
        None => 0,
    }
}

pub fn luminate_policy_binding_role_at(binding: Option<&LuminatePolicyBinding>, index: usize) -> (text: Option<&str>)
    ensures
        opt_str(text) == match binding { Some(b) => set_text_at(b.roles.spec_keys(), index), None => None::<Seq<char>> },
{
    match binding {
        Some(b) => text_set_at(&b.roles, index),
        None => None,
    }
}

} // verus!

verus! {

/// An owned remote principal: exact opaque authority, subject and verified
/// groups (kept in ascending order), with no credentials.
pub struct LuminateRemotePrincipal {
    authority: String,
    subject: String,
    groups: TextSet,
}

impl LuminateRemotePrincipal {
    pub closed spec fn spec_authority(&self) -> Seq<char> {
        self.authority@
    }

    pub closed spec fn spec_subject(&self) -> Seq<char> {
        self.subject@
    }

    pub closed spec fn spec_groups(&self) -> Seq<Seq<char>> {
        self.groups.spec_keys()
    }
}

/// Outcome of `luminate_remote_principal_new`: the authority and subject
/// strings, the groups, then the principal's validation (non-empty
/// authority and subject).
pub open spec fn remote_principal_outcome(
    authority: Option<Seq<u8>>,
    subject: Option<Seq<u8>>,
    groups: Option<Seq<Option<Seq<u8>>>>,
    group_count: nat,
) -> Result<(Seq<char>, Seq<char>, Set<Seq<char>>), LuminateStatus> {
    match required_str_outcome(authority) {
        Err(status) => Err(status),
        Ok(a) => match required_str_outcome(subject) {
            Err(status) => Err(status),
            Ok(s) => match str_array_outcome(groups, group_count) {
                Err(status) => Err(status),
                Ok(g) => if a.len() == 0 || s.len() == 0 {
                    Err(LuminateStatus::InvalidArgument)
                } else {
                    Ok((a, s, g.to_set()))
                },
            },
        },
    }
}

/// Creates an owned remote principal from exact, opaque identity strings.
pub fn luminate_remote_principal_new(
    authority: Option<&[u8]>,
    subject: Option<&[u8]>,
    groups: Option<&[Option<&[u8]>]>,
    group_count: usize,
) -> (result: Result<LuminateRemotePrincipal, LuminateStatus>)
    requires
        counted(groups, group_count),
    ensures
        match result {
            Ok(p) => remote_principal_outcome(arg_bytes(authority), arg_bytes(subject), array_arg(groups), group_count as nat)
                == Ok::<(Seq<char>, Seq<char>, Set<Seq<char>>), LuminateStatus>((p.spec_authority(), p.spec_subject(), p.spec_groups().to_set()))
                && sorted_texts(p.spec_groups()),
            Err(status) => remote_principal_outcome(arg_bytes(authority), arg_bytes(subject), array_arg(groups), group_count as nat)
                == Err::<(Seq<char>, Seq<char>, Set<Seq<char>>), LuminateStatus>(status),
        },
{
    let authority = read_owned_str(authority)?;
    let subject = read_owned_str(subject)?;
    let groups = read_text_set(groups, group_count)?;
    if authority.as_str().is_empty() || subject.as_str().is_empty() {
        return Err(LuminateStatus::InvalidArgument);
    }
    let _n = groups.len();
    Ok(LuminateRemotePrincipal { authority, subject, groups })
}

pub fn luminate_remote_principal_authority(principal: Option<&LuminateRemotePrincipal>) -> (text: Option<&str>)
    ensures
        opt_str(text) == match principal { Some(p) => Some(p.spec_authority()), None => None::<Seq<char>> },
{
    match principal {
        Some(p) => Some(p.authority.as_str()),
        None => None,
    }
}

pub fn luminate_remote_principal_subject(principal: Option<&LuminateRemotePrincipal>) -> (text: Option<&str>)
    ensures
        opt_str(text) == match principal { Some(p) => Some(p.spec_subject()), None => None::<Seq<char>> },
{
    match principal {
        Some(p) => Some(p.subject.as_str()),
        None => None,
    }
}

pub fn luminate_remote_principal_group_count(principal: Option<&LuminateRemotePrincipal>) -> (count: usize)
    ensures
        count == match principal { Some(p) => p.spec_groups().len(), None => 0 },
{
    match principal {
        Some(p) => p.groups.len(),
        None => 0,
    }
}

/// Group at `index` in ascending order, or absent when out of range.
pub fn luminate_remote_principal_group_at(principal: Option<&LuminateRemotePrincipal>, index: usize) -> (text: Option<&str>)
    ensures
        opt_str(text) == match principal { Some(p) => set_text_at(p.spec_groups(), index), None => None::<Seq<char>> },
{
    match principal {
        Some(p) => text_set_at(&p.groups, index),
        None => None,
    }
}

/// One resource an evaluated request would affect.
pub struct LuminateResourceInput<'a> {
    pub device_id: Option<&'a [u8]>,
    pub provider_instance: Option<&'a [u8]>,
    pub host_attached: bool,
    pub collections: Option<&'a [Option<&'a [u8]>]>,
    pub collection_count: usize,
}

/// A resource of an authorization request.
pub struct Resource {
    pub device_id: String,
    pub provider_instance: Option<String>,
    pub host_attached: bool,
    pub collections: Vec<String>,
}

/// Plain contents of a resource.
pub struct ResourceView {
    pub device_id: Seq<char>,
    pub provider_instance: Option<Seq<char>>,
    pub host_attached: bool,
    pub collections: Seq<Seq<char>>,
}

impl Resource {
    pub open spec fn view(&self) -> ResourceView {
        ResourceView {
            device_id: self.device_id@,
            provider_instance: opt_string(self.provider_instance),
            host_attached: self.host_attached,
            collections: strings_view(self.collections@),
        }
    }
}

/// Outcome of decoding one resource: the device ID, then the optional
/// provider instance (null means absent), then the collections.
pub open spec fn resource_outcome(input: LuminateResourceInput) -> Result<ResourceView, LuminateStatus> {
    match required_str_outcome(arg_bytes(input.device_id)) {
        Err(status) => Err(status),
        Ok(device) => {
            let provider = if input.provider_instance is None {
                Ok(None)
            } else {
                match required_str_outcome(arg_bytes(input.provider_instance)) {
                    Err(status) => Err(status),
                    Ok(text) => Ok(Some(text)),
                }
            };
            match provider {
                Err(status) => Err(status),
                Ok(provider) => match str_array_outcome(array_arg(input.collections), input.collection_count as nat) {
                    Err(status) => Err(status),
                    Ok(collections) => Ok(ResourceView { device_id: device, provider_instance: provider, host_attached: input.host_attached, collections }),
                },
            }
        },
    }
}

/// A decoded resource keeps each caller field in its own place: the device
/// ID, the provider instance (absent where the caller passed null), the
/// host-attached flag and the collections, in the caller's order.
pub proof fn lemma_resource_fields_from_their_inputs(input: LuminateResourceInput)
    ensures
        resource_outcome(input) matches Ok(r) ==> {
            &&& required_str_outcome(arg_bytes(input.device_id)) == Ok::<Seq<char>, LuminateStatus>(r.device_id)
            &&& (input.provider_instance is None ==> r.provider_instance is None)
            &&& (input.provider_instance is Some ==> Ok::<Seq<char>, LuminateStatus>(r.provider_instance->0)
                == required_str_outcome(arg_bytes(input.provider_instance)) && r.provider_instance is Some)
            &&& r.host_attached == input.host_attached
            &&& str_array_outcome(array_arg(input.collections), input.collection_count as nat)
                == Ok::<Seq<Seq<char>>, LuminateStatus>(r.collections)
        },
{
}

/// Decodes one resource input.
pub fn read_resource_input(input: &LuminateResourceInput) -> (result: Result<Resource, LuminateStatus>)
    requires
        counted(input.collections, input.collection_count),
    ensures
        match result {
            Ok(r) => resource_outcome(*input) == Ok::<ResourceView, LuminateStatus>(r.view()),
            Err(status) => resource_outcome(*input) == Err::<ResourceView, LuminateStatus>(status),
        },
{
    let device_id = read_owned_str(input.device_id)?;
    let provider_instance = read_optional_str(input.provider_instance)?;
    let collections = read_str_array(input.collections, input.collection_count)?;
    Ok(Resource { device_id, provider_instance, host_attached: input.host_attached, collections })
}

/// Outcome of decoding every resource in order; the first failure wins.
pub open spec fn all_resources_outcome(inputs: Seq<LuminateResourceInput>) -> Result<Seq<ResourceView>, LuminateStatus>
    decreases inputs.len(),
{
    if inputs.len() == 0 {
        Ok(Seq::empty())
    } else {
        match all_resources_outcome(inputs.drop_last()) {
            Err(status) => Err(status),
            Ok(prefix) => match resource_outcome(inputs.last()) {
                Err(status) => Err(status),
                Ok(r) => Ok(prefix.push(r)),
            },
        }
    }
}

/// Outcome of decoding a counted resource array.
pub open spec fn resources_outcome<'a>(values: Option<&[LuminateResourceInput<'a>]>, count: nat) -> Result<Seq<ResourceView>, LuminateStatus> {
    if count == 0 {
        Ok(Seq::empty())
    } else {
        match values {
            None => Err(LuminateStatus::NullPointer),
            Some(items) => all_resources_outcome(items@),
        }
    }
}

/// The views of decoded resources.
pub open spec fn resources_view(resources: Seq<Resource>) -> Seq<ResourceView> {
    resources.map_values(|r: Resource| r.view())
}

proof fn lemma_resources_error_persists(items: Seq<LuminateResourceInput>, k: int, status: LuminateStatus)
    requires
        0 <= k <= items.len(),
        all_resources_outcome(items.take(k)) == Err::<Seq<ResourceView>, LuminateStatus>(status),
    ensures
        all_resources_outcome(items) == Err::<Seq<ResourceView>, LuminateStatus>(status),
    decreases items.len() - k,
{
    if k < items.len() {
        assert(items.take(k + 1).drop_last() =~= items.take(k));
        lemma_resources_error_persists(items, k + 1, status);
    } else {
        assert(items.take(k) =~= items);
    }
}

/// Decodes `count` resource inputs; a zero count reads nothing.
pub fn read_resources(values: Option<&[LuminateResourceInput]>, count: usize) -> (result: Result<Vec<Resource>, LuminateStatus>)
    requires
        values matches Some(items) ==> items@.len() == count
            && forall|i: int| 0 <= i < items@.len() ==> counted(#[trigger] items@[i].collections, items@[i].collection_count),
    ensures
        match result {
            Ok(rs) => resources_outcome(values, count as nat) == Ok::<Seq<ResourceView>, LuminateStatus>(resources_view(rs@)),
            Err(status) => resources_outcome(values, count as nat) == Err::<Seq<ResourceView>, LuminateStatus>(status),
        },
{
    let mut resources: Vec<Resource> = Vec::new();
    if count == 0 {
        assert(resources_view(resources@) =~= Seq::<ResourceView>::empty());
        return Ok(resources);
    }
    let items = match values {
        None => return Err(LuminateStatus::NullPointer),
        Some(items) => items,
    };
    let mut i: usize = 0;
    assert(items@.take(0) =~= Seq::<LuminateResourceInput>::empty());
    assert(resources_view(resources@) =~= Seq::<ResourceView>::empty());
    while i < items.len()
        invariant
            values == Some(items),
            count != 0,
            0 <= i <= items@.len(),
            forall|j: int| 0 <= j < items@.len() ==> counted(#[trigger] items@[j].collections, items@[j].collection_count),
            all_resources_outcome(items@.take(i as int)) == Ok::<Seq<ResourceView>, LuminateStatus>(resources_view(resources@)),
        decreases items@.len() - i,
    {
        assert(items@.take(i + 1).drop_last() =~= items@.take(i as int));
        assert(items@.take(i + 1).last() == items@[i as int]);
        match read_resource_input(&items[i]) {
            Ok(resource) => {
                let ghost prev = resources@;
                let ghost rv = resource.view();
                resources.push(resource);
                assert(resources_view(resources@) =~= resources_view(prev).push(rv));
            },
            Err(status) => {
                proof {
                    assert(all_resources_outcome(items@.take(i + 1)) == Err::<Seq<ResourceView>, LuminateStatus>(status));
                    lemma_resources_error_persists(items@, i + 1, status);
                }
                return Err(status);
            },
        }
        i = i + 1;
    }
    assert(items@.take(items@.len() as int) =~= items@);
    Ok(resources)
}

/// Validates the inputs of `luminate_policy_document_evaluate` before the
/// evaluation: the document, the principal, the operation code, then the
/// resources.
pub fn evaluation_request(
    document: Option<&LuminatePolicyDocument>,
    principal: Option<&LuminateRemotePrincipal>,
    operation: u32,
    resources: Option<&[LuminateResourceInput]>,
    resource_count: usize,
) -> (result: Result<(Operation, Vec<Resource>), LuminateStatus>)
    requires
        resources matches Some(items) ==> items@.len() == resource_count
            && forall|i: int| 0 <= i < items@.len() ==> counted(#[trigger] items@[i].collections, items@[i].collection_count),
    ensures
        (document is None || principal is None) ==> result == Err::<(Operation, Vec<Resource>), LuminateStatus>(LuminateStatus::NullPointer),
        (document is Some && principal is Some) ==> match result {
            Ok((op, rs)) => operation_code(op) == operation
                && resources_outcome(resources, resource_count as nat) == Ok::<Seq<ResourceView>, LuminateStatus>(resources_view(rs@)),
            Err(status) => if operation >= OPERATION_COUNT {
                status == LuminateStatus::InvalidArgument
            } else {
                resources_outcome(resources, resource_count as nat) == Err::<Seq<ResourceView>, LuminateStatus>(status)
            },
        },
{
    if document.is_none() || principal.is_none() {
        return Err(LuminateStatus::NullPointer);
    }
    let op = operation_from_u32(operation)?;
    let rs = read_resources(resources, resource_count)?;
    Ok((op, rs))
}

/// An owned authorization decision.
pub struct LuminateAuthorizationEvaluation {
    pub allowed: bool,
    pub reason: Option<String>,
    pub audit_rule: Option<String>,
    pub cache_hint_ms: Option<u64>,
    pub revision: u64,
}

/// Whether the evaluated request is allowed; false for null.
pub fn luminate_authorization_evaluation_is_allowed(v: Option<&LuminateAuthorizationEvaluation>) -> (allowed: bool)
    ensures
        allowed == (v matches Some(e) && e.allowed),
{
    match v {
        Some(e) => e.allowed,
        None => false,
    }
}

/// The decision's caller-safe diagnostic, or absent.
pub fn luminate_authorization_evaluation_reason(v: Option<&LuminateAuthorizationEvaluation>) -> (text: Option<&str>)
    ensures
        opt_str(text) == match v { Some(e) => opt_string(e.reason), None => None::<Seq<char>> },
{
    match v {
        Some(e) => match &e.reason {
            Some(r) => Some(r.as_str()),
            None => None,
        },
        None => None,
    }
}

/// The matching rule's identifier, or absent for a default denial.
pub fn luminate_authorization_evaluation_audit_rule(v: Option<&LuminateAuthorizationEvaluation>) -> (text: Option<&str>)
    ensures
        opt_str(text) == match v { Some(e) => opt_string(e.audit_rule), None => None::<Seq<char>> },
{
    match v {
        Some(e) => match &e.audit_rule {
            Some(r) => Some(r.as_str()),
            None => None,
        },
        None => None,
    }
}

pub fn luminate_authorization_evaluation_has_cache_hint_ms(v: Option<&LuminateAuthorizationEvaluation>) -> (has: bool)
    ensures
        has == (v matches Some(e) && e.cache_hint_ms is Some),
{
    match v {
        Some(e) => e.cache_hint_ms.is_some(),
        None => false,
    }
}

/// The cache hint in milliseconds; 0 when absent or null.
pub fn luminate_authorization_evaluation_cache_hint_ms(v: Option<&LuminateAuthorizationEvaluation>) -> (ms: u64)
    ensures
        ms == match v {
            Some(e) => match e.cache_hint_ms { Some(h) => h, None => 0 },
            None => 0,
        },
{
    match v {
        Some(e) => match e.cache_hint_ms {
            Some(h) => h,
            None => 0,
        },
        None => 0,
    }
}

/// The revision under which the decision was made; 0 for null.
pub fn luminate_authorization_evaluation_revision(v: Option<&LuminateAuthorizationEvaluation>) -> (revision: u64)
    ensures
        revision == match v { Some(e) => e.revision, None => 0 },
{
    match v {
        Some(e) => e.revision,
        None => 0,
    }
}

/// Releases a builder. Null is a no-op.
pub fn luminate_policy_document_builder_free(value: Option<Box<LuminatePolicyDocumentBuilder>>) {
    drop_value(value);
}

/// Releases a document. Null is a no-op.
pub fn luminate_policy_document_free(value: Option<Box<LuminatePolicyDocument>>) {
    drop_value(value);
}

/// Releases a remote principal. Null is a no-op.
pub fn luminate_remote_principal_free(value: Option<Box<LuminateRemotePrincipal>>) {
    drop_value(value);
}

/// Releases an authorization evaluation. Null is a no-op.
pub fn luminate_authorization_evaluation_free(value: Option<Box<LuminateAuthorizationEvaluation>>) {
    drop_value(value);
}

pub(crate) fn drop_value<T>(value: Option<Box<T>>) {
    match value {
        Some(_) => {},
        None => {},
    }
}

} // verus!

verus! {

impl OperationSet {
    /// An independent copy of the set.
    pub fn duplicate(&self) -> (copy: OperationSet)
        ensures
            copy.spec_members() == self.spec_members(),
    {
        proof { use_type_invariant(self); }
        let mut members: Vec<Operation> = Vec::new();
        let mut i: usize = 0;
        while i < self.members.len()
            invariant
                0 <= i <= self.members@.len(),
                members@ == self.members@.take(i as int),
            decreases self.members@.len() - i,
        {
            members.push(self.members[i]);
            assert(members@ =~= self.members@.take(i + 1));
            i = i + 1;
        }
        assert(self.members@.take(i as int) =~= self.members@);
        OperationSet { members }
    }
}

fn duplicate_opt_string(value: &Option<String>) -> (copy: Option<String>)
    ensures
        opt_string(copy) == opt_string(*value),
{
    match value {
        Some(text) => Some(text.clone()),
        None => None,
    }
}

fn duplicate_rule(rule: &LuminatePolicyRule) -> (copy: LuminatePolicyRule)
    ensures
        copy.view() == rule.view(),
{
    LuminatePolicyRule {
        id: rule.id.clone(),
        effect: rule.effect,
        operations: rule.operations.duplicate(),
        resources: ResourceConstraints {
            device_ids: rule.resources.device_ids.duplicate(),
            provider_instances: rule.resources.provider_instances.duplicate(),
            host_attached: rule.resources.host_attached,
            collections: rule.resources.collections.duplicate(),
        },
        reason: duplicate_opt_string(&rule.reason),
        cache_hint_ms: rule.cache_hint_ms,
    }
}

fn duplicate_role(role: &LuminatePolicyRole) -> (copy: LuminatePolicyRole)
    ensures
        copy.view() == role.view(),
{
    let mut rules: Vec<LuminatePolicyRule> = Vec::new();
    let mut i: usize = 0;
    while i < role.rules.len()
        invariant
            0 <= i <= role.rules@.len(),
            rules_view(rules@) == rules_view(role.rules@).take(i as int),
        decreases role.rules@.len() - i,
    {
        let copy = duplicate_rule(&role.rules[i]);
        let ghost prev = rules@;
        let ghost cv = copy.view();
        rules.push(copy);
        assert(rules_view(rules@) =~= rules_view(prev).push(cv));
        assert(rules_view(rules@) =~= rules_view(role.rules@).take(i + 1));
        i = i + 1;
    }
    assert(rules_view(role.rules@).take(i as int) =~= rules_view(role.rules@));
    LuminatePolicyRole { parents: role.parents.duplicate(), rules }
}

fn duplicate_binding(binding: &LuminatePolicyBinding) -> (copy: LuminatePolicyBinding)
    ensures
        copy.view() == binding.view(),
{
    LuminatePolicyBinding {
        authority: binding.authority.clone(),
        subjects: binding.subjects.duplicate(),
        groups: binding.groups.duplicate(),
        roles: binding.roles.duplicate(),
    }
}

fn duplicate_roles(roles: &TextMap<LuminatePolicyRole>) -> (copy: TextMap<LuminatePolicyRole>)
    ensures
        roles_view(copy.spec_map()) == roles_view(roles.spec_map()),
{
    let n = roles.len();
    let ghost keys = roles.spec_keys();
    let ghost full = roles_view(roles.spec_map());
    let mut copy: TextMap<LuminatePolicyRole> = TextMap::new();
    let mut i: usize = 0;
    assert(roles_view(copy.spec_map()) =~= full.restrict(keys.take(0).to_set()));
    while i < n
        invariant
            n == roles.spec_len(),
            keys == roles.spec_keys(),
            full == roles_view(roles.spec_map()),
            sorted_texts(keys),
            0 <= i <= n,
            roles_view(copy.spec_map()) == full.restrict(keys.take(i as int).to_set()),
        decreases n - i,
    {
        let key = roles.key_at(i).to_owned();
        let value = duplicate_role(roles.value_at(i));
        proof {
            crate::canonical::lemma_index_of_sorted(keys, i as int);
            assert(roles.spec_map().contains_key(keys[i as int]));
            assert(full[keys[i as int]] == roles.spec_entries()[i as int].1.view());
        }
        let ghost k = key@;
        let ghost vv = value.view();
        let ghost before = copy.spec_map();
        copy.insert(key, value);
        proof {
            assert(keys.take(i + 1).to_set() =~= keys.take(i as int).to_set().insert(k)) by {
                assert forall|x: Seq<char>| keys.take(i + 1).to_set().contains(x) <==> keys.take(i as int).to_set().insert(k).contains(x) by {
                    if keys.take(i + 1).contains(x) {
                        let j = choose|j: int| 0 <= j < i + 1 && #[trigger] keys.take(i + 1)[j] == x;
                        if j < i { assert(keys.take(i as int)[j] == x); }
                    }
                    if keys.take(i as int).contains(x) {
                        let j = choose|j: int| 0 <= j < i && #[trigger] keys.take(i as int)[j] == x;
                        assert(keys.take(i + 1)[j] == x);
                    }
                    if x == k { assert(keys.take(i + 1)[i as int] == x); }
                }
            }
            assert(roles_view(copy.spec_map()) =~= roles_view(before).insert(k, vv));
            assert(roles_view(copy.spec_map()) =~= full.restrict(keys.take(i + 1).to_set()));
        }
        i = i + 1;
    }
    proof {
        assert(keys.take(n as int) =~= keys);
        assert forall|x: Seq<char>| #![auto] full.contains_key(x) <==> keys.to_set().contains(x) by {}
        assert(full.restrict(keys.to_set()) =~= full);
    }
    copy
}

fn duplicate_source(source: &PolicyDocumentSource) -> (copy: PolicyDocumentSource)
    ensures
        copy.view() == source.view(),
{
    let mut bindings: Vec<LuminatePolicyBinding> = Vec::new();
    let mut i: usize = 0;
    while i < source.bindings.len()
        invariant
            0 <= i <= source.bindings@.len(),
            bindings_view(bindings@) == bindings_view(source.bindings@).take(i as int),
        decreases source.bindings@.len() - i,
    {
        let copy = duplicate_binding(&source.bindings[i]);
        let ghost prev = bindings@;
        let ghost cv = copy.view();
        bindings.push(copy);
        assert(bindings_view(bindings@) =~= bindings_view(prev).push(cv));
        assert(bindings_view(bindings@) =~= bindings_view(source.bindings@).take(i + 1));
        i = i + 1;
    }
    assert(bindings_view(source.bindings@).take(i as int) =~= bindings_view(source.bindings@));
    PolicyDocumentSource { revision: source.revision, roles: duplicate_roles(&source.roles), bindings }
}

/// Seeds a builder with an independent copy of a document; building it
/// unmodified preserves the document's contents.
pub fn luminate_policy_document_builder_from_document(document: Option<&LuminatePolicyDocument>) -> (result: Result<LuminatePolicyDocumentBuilder, LuminateStatus>)
    ensures
        match document {
            None => result == Err::<LuminatePolicyDocumentBuilder, LuminateStatus>(LuminateStatus::NullPointer),
            Some(d) => result matches Ok(b) && b.view() == d.0.view(),
        },
{
    match document {
        None => Err(LuminateStatus::NullPointer),
        Some(d) => Ok(LuminatePolicyDocumentBuilder(duplicate_source(&d.0))),
    }
}

} // verus!

verus! {

/// Removing the rule that was just appended to an existing role restores the
/// builder's contents.
pub proof fn lemma_add_then_remove_rule_restores(source: SourceView, role: Option<Seq<u8>>, rule: Option<LuminateRuleInput>, index: usize)
    requires
        required_str_outcome(role) matches Ok(r) && source.roles.contains_key(r) && index == source.roles[r].rules.len(),
        add_rule_outcome(source, role, rule) is Ok,
    ensures
        remove_rule_outcome(add_rule_outcome(source, role, rule)->Ok_0, role, index) == Ok::<SourceView, LuminateStatus>(source),
{
    let r = required_str_outcome(role)->Ok_0;
    let added = add_rule_outcome(source, role, rule)->Ok_0;
    let old_role = source.roles[r];
    assert(added.roles[r].rules.remove(index as int) =~= old_role.rules);
    let restored = remove_rule_outcome(added, role, index)->Ok_0;
    assert(restored.roles =~= source.roles);
}

/// Removing a parent that was just added to an existing role, naming an
/// existing role and not yet a parent of it, restores the builder's
/// contents.
pub proof fn lemma_add_then_remove_parent_restores(source: SourceView, role: Option<Seq<u8>>, parent: Option<Seq<u8>>)
    requires
        required_str_outcome(role) matches Ok(r) && source.roles.contains_key(r),
        required_str_outcome(parent) matches Ok(p) && source.roles.contains_key(p)
            && !source.roles[required_str_outcome(role)->Ok_0].parents.contains(p),
    ensures
        add_parent_outcome(source, role, parent) is Ok,
        remove_parent_outcome(add_parent_outcome(source, role, parent)->Ok_0, role, parent) == Ok::<SourceView, LuminateStatus>(source),
{
    let r = required_str_outcome(role)->Ok_0;
    let p = required_str_outcome(parent)->Ok_0;
    assert(with_role(source.roles, p) =~= source.roles);
    let added = add_parent_outcome(source, role, parent)->Ok_0;
    assert(added.roles[r].parents.remove(p) =~= source.roles[r].parents);
    let restored = remove_parent_outcome(added, role, parent)->Ok_0;
    assert(restored.roles =~= source.roles);
}

/// Removing the binding that was just appended restores the builder's
/// contents.
pub proof fn lemma_add_then_remove_binding_restores(source: SourceView, binding: BindingView)
    ensures
        ({
            let added = with_bindings(source, source.bindings.push(binding));
            with_bindings(added, added.bindings.remove(source.bindings.len() as int)) == source
        }),
{
    assert(source.bindings.push(binding).remove(source.bindings.len() as int) =~= source.bindings);
}

} // verus!

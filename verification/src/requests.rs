//! Validation of client calls before they are dispatched to the daemon:
//! every check that the C surface makes on its arguments, in the order it
//! makes them, and the copies of caller inputs that travel with a call.

use vstd::prelude::*;

use crate::collections::{opt_target, read_target, target_outcome, target_view, LuminateTarget, TargetView};
use crate::effects::{Effect, EffectView, LuminateEffect};
use crate::input::{arg_bytes, read_owned_str, required_str_outcome};
use crate::status::{LuminateStatus, TargetId};

verus! {

/// Whether a target is lit.
#[derive(Debug, Clone, Copy, PartialEq, Eq, Structural)]
pub enum EmissionState {
    Dark,
    Emitting,
}

/// Decision for `luminate_client_set_emission`: the state code is checked
/// first, then the client and the target.
pub open spec fn emission_outcome<'a>(client_present: bool, target: Option<LuminateTarget<'a>>, state: u32) -> Result<(TargetView, EmissionState), LuminateStatus> {
    if state > 1 {
        Err(LuminateStatus::InvalidArgument)
    } else if !client_present {
        Err(LuminateStatus::NullPointer)
    } else {
        match target_outcome(target) {
            Err(status) => Err(status),
            Ok(t) => Ok((t, if state == 0 { EmissionState::Dark } else { EmissionState::Emitting })),
        }
    }
}

/// Validates the inputs of `luminate_client_set_emission`.
pub fn emission_request(client_present: bool, target: Option<&LuminateTarget>, state: u32) -> (result: Result<(TargetId, EmissionState), LuminateStatus>)
    ensures
        match result {
            Ok((t, s)) => emission_outcome(client_present, opt_target(target), state)
                == Ok::<(TargetView, EmissionState), LuminateStatus>((target_view(t), s)),
            Err(status) => emission_outcome(client_present, opt_target(target), state)
                == Err::<(TargetView, EmissionState), LuminateStatus>(status),
        },
{
    let s = if state == 0 {
        EmissionState::Dark
    } else if state == 1 {
        EmissionState::Emitting
    } else {
        return Err(LuminateStatus::InvalidArgument);
    };
    if !client_present {
        return Err(LuminateStatus::NullPointer);
    }
    let t = read_target(target)?;
    Ok((t, s))
}

/// The emission state codes: 0 asks for the target to go dark and 1 for it
/// to emit; any other code is `InvalidArgument` before anything else is
/// read, and an accepted request names the target that the caller gave.
pub proof fn lemma_emission_state_codes<'a>(client_present: bool, target: Option<LuminateTarget<'a>>, state: u32)
    ensures
        state > 1 ==> emission_outcome(client_present, target, state) == Err::<(TargetView, EmissionState), LuminateStatus>(LuminateStatus::InvalidArgument),
        emission_outcome(client_present, target, state) matches Ok((t, s)) ==> {
            &&& (s == EmissionState::Dark <==> state == 0)
            &&& (s == EmissionState::Emitting <==> state == 1)
            &&& client_present
            &&& target_outcome(target) == Ok::<TargetView, LuminateStatus>(t)
        },
{
}

/// Decision for a call that carries only a target (set brightness, clear,
/// off, restore appearance): a null client, then the target.
pub open spec fn target_call_outcome<'a>(client_present: bool, target: Option<LuminateTarget<'a>>) -> Result<TargetView, LuminateStatus> {
    if !client_present {
        Err(LuminateStatus::NullPointer)
    } else {
        target_outcome(target)
    }
}

/// Validates the inputs of a call that carries only a target.
pub fn target_call_request(client_present: bool, target: Option<&LuminateTarget>) -> (result: Result<TargetId, LuminateStatus>)
    ensures
        match result {
            Ok(t) => target_call_outcome(client_present, opt_target(target)) == Ok::<TargetView, LuminateStatus>(target_view(t)),
            Err(status) => target_call_outcome(client_present, opt_target(target)) == Err::<TargetView, LuminateStatus>(status),
        },
{
    if !client_present {
        return Err(LuminateStatus::NullPointer);
    }
    read_target(target)
}

/// Validates the inputs of `luminate_client_set_effect`: a null client, the
/// target, then a null effect; the effect travels as a deep copy.
pub fn set_effect_request(client_present: bool, target: Option<&LuminateTarget>, effect: Option<&LuminateEffect>) -> (result: Result<(TargetId, Effect), LuminateStatus>)
    ensures
        match target_call_outcome(client_present, opt_target(target)) {
            Err(status) => result == Err::<(TargetId, Effect), LuminateStatus>(status),
            Ok(t) => match effect {
                None => result == Err::<(TargetId, Effect), LuminateStatus>(LuminateStatus::NullPointer),
                Some(e) => result matches Ok((target_id, copy)) && target_view(target_id) == t && copy.view() == e.view(),
            },
        },
{
    let t = target_call_request(client_present, target)?;
    let e = match effect {
        None => return Err(LuminateStatus::NullPointer),
        Some(e) => e,
    };
    Ok((t, e.duplicate()))
}

/// One caller-owned appearance-slot assignment.
#[derive(Debug, Clone, Copy)]
pub struct LuminateAppearanceSlotInput<'a> {
    pub slot_id: Option<&'a [u8]>,
    pub effect: Option<&'a LuminateEffect>,
}

/// One appearance-slot assignment.
#[derive(Debug, PartialEq)]
pub struct LuminateAppearanceSlotValue {
    pub slot: String,
    pub effect: Effect,
}

pub type AppearanceSlotValue = LuminateAppearanceSlotValue;

/// The content of a slot assignment.
pub struct SlotValueView {
    pub slot: Seq<char>,
    pub effect: EffectView,
}

pub open spec fn slot_values_view(values: Seq<AppearanceSlotValue>) -> Seq<SlotValueView> {
    values.map_values(|v: AppearanceSlotValue| SlotValueView { slot: v.slot@, effect: v.effect.view() })
}

/// Decoding of one slot assignment: the slot id, then a null effect.
pub open spec fn slot_input_outcome<'a>(input: LuminateAppearanceSlotInput<'a>) -> Result<SlotValueView, LuminateStatus> {
    match required_str_outcome(arg_bytes(input.slot_id)) {
        Err(status) => Err(status),
        Ok(slot) => match input.effect {
            None => Err(LuminateStatus::NullPointer),
            Some(e) => Ok(SlotValueView { slot, effect: e.view() }),
        },
    }
}

/// Decoding of slot assignments in order; the first failure wins.
pub open spec fn slot_inputs_outcome<'a>(items: Seq<LuminateAppearanceSlotInput<'a>>) -> Result<Seq<SlotValueView>, LuminateStatus>
    decreases items.len(),
{
    if items.len() == 0 {
        Ok(Seq::empty())
    } else {
        match slot_inputs_outcome(items.drop_last()) {
            Err(status) => Err(status),
            Ok(prefix) => match slot_input_outcome(items.last()) {
                Err(status) => Err(status),
                Ok(v) => Ok(prefix.push(v)),
            },
        }
    }
}

/// Decoding of a counted assignment array: a zero count never reads the
/// array; a null array with a non-zero count is `NullPointer`.
pub open spec fn slot_list_outcome<'a>(values: Option<&[LuminateAppearanceSlotInput<'a>]>, count: usize) -> Result<Seq<SlotValueView>, LuminateStatus> {
    if count == 0 {
        Ok(Seq::empty())
    } else {
        match values {
            None => Err(LuminateStatus::NullPointer),
            Some(items) => slot_inputs_outcome(items@),
        }
    }
}

proof fn lemma_slots_error_persists<'a>(items: Seq<LuminateAppearanceSlotInput<'a>>, k: int, status: LuminateStatus)
    requires
        0 <= k <= items.len(),
        slot_inputs_outcome(items.take(k)) == Err::<Seq<SlotValueView>, LuminateStatus>(status),
    ensures
        slot_inputs_outcome(items) == Err::<Seq<SlotValueView>, LuminateStatus>(status),
    decreases items.len() - k,
{
    if k < items.len() {
        assert(items.take(k + 1).drop_last() =~= items.take(k));
        lemma_slots_error_persists(items, k + 1, status);
    } else {
        assert(items.take(k) =~= items);
    }
}

/// Decodes `count` caller-owned slot assignments, deep-copying each effect.
pub fn read_appearance_slot_inputs(values: Option<&[LuminateAppearanceSlotInput]>, count: usize) -> (result: Result<Vec<AppearanceSlotValue>, LuminateStatus>)
    requires
        values matches Some(items) ==> items@.len() == count,
    ensures
        match result {
            Ok(decoded) => slot_list_outcome(values, count) == Ok::<Seq<SlotValueView>, LuminateStatus>(slot_values_view(decoded@)),
            Err(status) => slot_list_outcome(values, count) == Err::<Seq<SlotValueView>, LuminateStatus>(status),
        },
{
    let mut decoded: Vec<AppearanceSlotValue> = Vec::new();
    assert(slot_values_view(decoded@) =~= Seq::<SlotValueView>::empty());
    if count == 0 {
        return Ok(decoded);
    }
    let items = match values {
        None => return Err(LuminateStatus::NullPointer),
        Some(items) => items,
    };
    let mut i: usize = 0;
    assert(items@.take(0) =~= Seq::<LuminateAppearanceSlotInput>::empty());
    while i < items.len()
        invariant
            0 <= i <= items@.len(),
            slot_inputs_outcome(items@.take(i as int)) == Ok::<Seq<SlotValueView>, LuminateStatus>(slot_values_view(decoded@)),
            values == Some(items),
            count != 0,
        decreases items@.len() - i,
    {
        assert(items@.take(i + 1).drop_last() =~= items@.take(i as int));
        assert(items@.take(i + 1).last() == items@[i as int]);
        let input = items[i];
        let slot = match read_owned_str(input.slot_id) {
            Ok(slot) => slot,
            Err(status) => {
                proof { lemma_slots_error_persists(items@, i + 1, status); }
                return Err(status);
            },
        };
        let effect = match input.effect {
            None => {
                proof { lemma_slots_error_persists(items@, i + 1, LuminateStatus::NullPointer); }
                return Err(LuminateStatus::NullPointer);
            },
            Some(e) => e.duplicate(),
        };
        let ghost prev = decoded@;
        let ghost v = SlotValueView { slot: slot@, effect: effect.view() };
        decoded.push(AppearanceSlotValue { slot, effect });
        assert(slot_values_view(decoded@) =~= slot_values_view(prev).push(v));
        i = i + 1;
    }
    assert(items@.take(items@.len() as int) =~= items@);
    Ok(decoded)
}

/// Validates the inputs of `luminate_client_set_appearance_slots`: a null
/// client, the target, then the assignments.
pub fn appearance_slots_request(
    client_present: bool,
    target: Option<&LuminateTarget>,
    values: Option<&[LuminateAppearanceSlotInput]>,
    count: usize,
) -> (result: Result<(TargetId, Vec<AppearanceSlotValue>), LuminateStatus>)
    requires
        values matches Some(items) ==> items@.len() == count,
    ensures
        match target_call_outcome(client_present, opt_target(target)) {
            Err(status) => result == Err::<(TargetId, Vec<AppearanceSlotValue>), LuminateStatus>(status),
            Ok(t) => match slot_list_outcome(values, count) {
                Err(status) => result == Err::<(TargetId, Vec<AppearanceSlotValue>), LuminateStatus>(status),
                Ok(views) => result matches Ok((target_id, decoded)) && target_view(target_id) == t
                    && slot_values_view(decoded@) == views,
            },
        },
{
    let t = target_call_request(client_present, target)?;
    let decoded = read_appearance_slot_inputs(values, count)?;
    Ok((t, decoded))
}

/// The slot id of an assignment.
pub fn luminate_appearance_slot_value_id(value: Option<&LuminateAppearanceSlotValue>) -> (text: Option<&str>)
    ensures
        crate::policy::opt_str(text) == match value { Some(v) => Some(v.slot@), None => None::<Seq<char>> },
{
    match value {
        Some(v) => Some(v.slot.as_str()),
        None => None,
    }
}

/// The borrowed effect of an assignment.
pub fn luminate_appearance_slot_value_effect(value: Option<&LuminateAppearanceSlotValue>) -> (effect: Option<&LuminateEffect>)
    ensures
        effect == match value { Some(v) => Some(&v.effect), None => None::<&LuminateEffect> },
{
    match value {
        Some(v) => Some(&v.effect),
        None => None,
    }
}

/// Decision for a subscription with a baseline: a null client, then either
/// null output.
pub fn baseline_request(client_present: bool, subscription_out_present: bool, topology_out_present: bool) -> (result: Result<(), LuminateStatus>)
    ensures
        result is Ok <==> client_present && subscription_out_present && topology_out_present,
        result is Err ==> result == Err::<(), LuminateStatus>(LuminateStatus::NullPointer),
{
    if !client_present || !subscription_out_present || !topology_out_present {
        Err(LuminateStatus::NullPointer)
    } else {
        Ok(())
    }
}

/// Decision for a subscription with a baseline over an explicit event
/// socket path: the path is read first (null, then malformed UTF-8), then
/// the checks of `baseline_request`.
pub fn baseline_path_request(
    path: Option<&[u8]>,
    client_present: bool,
    subscription_out_present: bool,
    topology_out_present: bool,
) -> (result: Result<String, LuminateStatus>)
    ensures
        match required_str_outcome(arg_bytes(path)) {
            Err(status) => result == Err::<String, LuminateStatus>(status),
            Ok(p) => if client_present && subscription_out_present && topology_out_present {
                result matches Ok(text) && text@ == p
            } else {
                result == Err::<String, LuminateStatus>(LuminateStatus::NullPointer)
            },
        },
{
    let path = read_owned_str(path)?;
    baseline_request(client_present, subscription_out_present, topology_out_present)?;
    Ok(path)
}

/// Decision for `luminate_client_patch_management`: a null client, a null
/// patch, then a null output.
pub fn patch_request(client_present: bool, patch_present: bool, out_present: bool) -> (result: Result<(), LuminateStatus>)
    ensures
        result is Ok <==> client_present && patch_present && out_present,
        result is Err ==> result == Err::<(), LuminateStatus>(LuminateStatus::NullPointer),
{
    if !client_present || !patch_present || !out_present {
        Err(LuminateStatus::NullPointer)
    } else {
        Ok(())
    }
}

} // verus!

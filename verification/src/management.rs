//! Managed daemon and plugin configuration: policy codes, owned recursive
//! setting values, the atomic management patch builder, and read accessors
//! over management snapshots and change sets.
//!
//! Numbers inside setting values are carried as the bit pattern of an
//! IEEE-754 binary64 value.

use vstd::prelude::*;
use vstd::std_specs::vec::axiom_vec_index_decreases;

use crate::canonical::{texts_of, TextMap};
use crate::policy::{drop_value, opt_str, set_text_at};
use crate::input::{arg_bytes, read_owned_str, required_str_outcome};
use crate::status::{error_status, Diagnostics, Error, LastError, LuminateStatus};

verus! {

pub const LUMINATE_RECONCILIATION_POLICY_RESTORE: u32 = 0;
pub const LUMINATE_RECONCILIATION_POLICY_ADOPT: u32 = 1;
pub const LUMINATE_RECONCILIATION_POLICY_LEAVE: u32 = 2;

pub const LUMINATE_UNSUPPORTED_POLICY_SKIP: u32 = 0;
pub const LUMINATE_UNSUPPORTED_POLICY_REJECT: u32 = 1;

pub const LUMINATE_CCT_EMULATION_AUTO: u32 = 0;
pub const LUMINATE_CCT_EMULATION_DISABLED: u32 = 1;

pub const LUMINATE_MANAGEMENT_SETTING_BOOLEAN: u32 = 0;
pub const LUMINATE_MANAGEMENT_SETTING_INTEGER: u32 = 1;
pub const LUMINATE_MANAGEMENT_SETTING_NUMBER: u32 = 2;
pub const LUMINATE_MANAGEMENT_SETTING_STRING: u32 = 3;
pub const LUMINATE_MANAGEMENT_SETTING_ARRAY: u32 = 4;
pub const LUMINATE_MANAGEMENT_SETTING_TABLE: u32 = 5;

pub const LUMINATE_REPORTED_SETTING_UNSET: u32 = 0;
pub const LUMINATE_REPORTED_SETTING_VISIBLE: u32 = 1;
pub const LUMINATE_REPORTED_SETTING_REDACTED: u32 = 2;

pub const LUMINATE_PLUGIN_SETTING_BOOLEAN: u32 = 0;
pub const LUMINATE_PLUGIN_SETTING_INTEGER: u32 = 1;
pub const LUMINATE_PLUGIN_SETTING_NUMBER: u32 = 2;
pub const LUMINATE_PLUGIN_SETTING_STRING: u32 = 3;
pub const LUMINATE_PLUGIN_SETTING_ENUMERATION: u32 = 4;
pub const LUMINATE_PLUGIN_SETTING_ARRAY: u32 = 5;

pub const LUMINATE_PLUGIN_RUNTIME_INACTIVE: u32 = 0;
pub const LUMINATE_PLUGIN_RUNTIME_LOADING: u32 = 1;
pub const LUMINATE_PLUGIN_RUNTIME_LOADED: u32 = 2;
pub const LUMINATE_PLUGIN_RUNTIME_FAILED: u32 = 3;

pub const LUMINATE_MANAGEMENT_CHANGE_DAEMON_PREFERENCES: u32 = 0;
pub const LUMINATE_MANAGEMENT_CHANGE_PLUGIN_ACTIVATION: u32 = 1;
pub const LUMINATE_MANAGEMENT_CHANGE_PLUGIN_RECONCILIATION: u32 = 2;
pub const LUMINATE_MANAGEMENT_CHANGE_PLUGIN_SETTING: u32 = 3;

/// The code that accessors return for an absent or null value.
pub const LUMINATE_INVALID_CODE: u32 = 0xffff_ffff;

/// How the daemon reconciles a device's state when control changes hands.
#[derive(Debug, Clone, Copy, PartialEq, Eq, Structural)]
pub enum ReconciliationPolicy {
    Restore,
    Adopt,
    Leave,
}

/// What the daemon does with a request for an unsupported capability.
#[derive(Debug, Clone, Copy, PartialEq, Eq, Structural)]
pub enum UnsupportedPolicy {
    Skip,
    Reject,
}

/// Whether colour temperature is emulated on RGB-only hardware.
#[derive(Debug, Clone, Copy, PartialEq, Eq, Structural)]
pub enum CctEmulation {
    Auto,
    Disabled,
}

/// The `LUMINATE_RECONCILIATION_POLICY_*` code of a policy.
pub open spec fn reconciliation_code(policy: ReconciliationPolicy) -> u32 {
    match policy {
        ReconciliationPolicy::Restore => 0,
        ReconciliationPolicy::Adopt => 1,
        ReconciliationPolicy::Leave => 2,
    }
}

/// The `LUMINATE_UNSUPPORTED_POLICY_*` code of a policy.
pub open spec fn unsupported_code(policy: UnsupportedPolicy) -> u32 {
    match policy {
        UnsupportedPolicy::Skip => 0,
        UnsupportedPolicy::Reject => 1,
    }
}

/// The `LUMINATE_CCT_EMULATION_*` code of a mode.
pub open spec fn cct_emulation_code(mode: CctEmulation) -> u32 {
    match mode {
        CctEmulation::Auto => 0,
        CctEmulation::Disabled => 1,
    }
}

/// Decoding of a reconciliation-policy code: unknown codes are rejected.
pub open spec fn reconciliation_outcome(value: u32) -> Result<ReconciliationPolicy, LuminateStatus> {
    if value == 0 {
        Ok(ReconciliationPolicy::Restore)
    } else if value == 1 {
        Ok(ReconciliationPolicy::Adopt)
    } else if value == 2 {
        Ok(ReconciliationPolicy::Leave)
    } else {
        Err(LuminateStatus::InvalidArgument)
    }
}

/// Decoding of an unsupported-policy code: unknown codes are rejected.
pub open spec fn unsupported_outcome(value: u32) -> Result<UnsupportedPolicy, LuminateStatus> {
    if value == 0 {
        Ok(UnsupportedPolicy::Skip)
    } else if value == 1 {
        Ok(UnsupportedPolicy::Reject)
    } else {
        Err(LuminateStatus::InvalidArgument)
    }
}

/// Decoding of a CCT-emulation code: unknown codes are rejected.
pub open spec fn cct_emulation_outcome(value: u32) -> Result<CctEmulation, LuminateStatus> {
    if value == 0 {
        Ok(CctEmulation::Auto)
    } else if value == 1 {
        Ok(CctEmulation::Disabled)
    } else {
        Err(LuminateStatus::InvalidArgument)
    }
}

/// The C reconciliation-policy codes are fixed: restore 0, adopt 1, leave 2;
/// each code decodes to its policy and every larger code is rejected.
pub proof fn lemma_reconciliation_code_table(value: u32)
    ensures
        reconciliation_code(ReconciliationPolicy::Restore) == 0,
        reconciliation_code(ReconciliationPolicy::Adopt) == 1,
        reconciliation_code(ReconciliationPolicy::Leave) == 2,
        reconciliation_outcome(0) == Ok::<ReconciliationPolicy, LuminateStatus>(ReconciliationPolicy::Restore),
        reconciliation_outcome(1) == Ok::<ReconciliationPolicy, LuminateStatus>(ReconciliationPolicy::Adopt),
        reconciliation_outcome(2) == Ok::<ReconciliationPolicy, LuminateStatus>(ReconciliationPolicy::Leave),
        value > 2 ==> reconciliation_outcome(value) == Err::<ReconciliationPolicy, LuminateStatus>(LuminateStatus::InvalidArgument),
{
}

/// The C unsupported-policy codes are fixed: skip 0, reject 1.
pub proof fn lemma_unsupported_code_table(value: u32)
    ensures
        unsupported_code(UnsupportedPolicy::Skip) == 0,
        unsupported_code(UnsupportedPolicy::Reject) == 1,
        unsupported_outcome(0) == Ok::<UnsupportedPolicy, LuminateStatus>(UnsupportedPolicy::Skip),
        unsupported_outcome(1) == Ok::<UnsupportedPolicy, LuminateStatus>(UnsupportedPolicy::Reject),
        value > 1 ==> unsupported_outcome(value) == Err::<UnsupportedPolicy, LuminateStatus>(LuminateStatus::InvalidArgument),
{
}

/// The C CCT-emulation codes are fixed: automatic 0, disabled 1.
pub proof fn lemma_cct_emulation_code_table(value: u32)
    ensures
        cct_emulation_code(CctEmulation::Auto) == 0,
        cct_emulation_code(CctEmulation::Disabled) == 1,
        cct_emulation_outcome(0) == Ok::<CctEmulation, LuminateStatus>(CctEmulation::Auto),
        cct_emulation_outcome(1) == Ok::<CctEmulation, LuminateStatus>(CctEmulation::Disabled),
        value > 1 ==> cct_emulation_outcome(value) == Err::<CctEmulation, LuminateStatus>(LuminateStatus::InvalidArgument),
{
}

/// Decodes a reconciliation-policy code.
pub fn reconciliation(value: u32) -> (result: Result<ReconciliationPolicy, LuminateStatus>)
    ensures
        result == reconciliation_outcome(value),
{
    match value {
        LUMINATE_RECONCILIATION_POLICY_RESTORE => Ok(ReconciliationPolicy::Restore),
        LUMINATE_RECONCILIATION_POLICY_ADOPT => Ok(ReconciliationPolicy::Adopt),
        LUMINATE_RECONCILIATION_POLICY_LEAVE => Ok(ReconciliationPolicy::Leave),
        _ => Err(LuminateStatus::InvalidArgument),
    }
}

/// Decodes an unsupported-policy code.
pub fn unsupported(value: u32) -> (result: Result<UnsupportedPolicy, LuminateStatus>)
    ensures
        result == unsupported_outcome(value),
{
    match value {
        LUMINATE_UNSUPPORTED_POLICY_SKIP => Ok(UnsupportedPolicy::Skip),
        LUMINATE_UNSUPPORTED_POLICY_REJECT => Ok(UnsupportedPolicy::Reject),
        _ => Err(LuminateStatus::InvalidArgument),
    }
}

/// Decodes a CCT-emulation code.
pub fn cct_emulation(value: u32) -> (result: Result<CctEmulation, LuminateStatus>)
    ensures
        result == cct_emulation_outcome(value),
{
    match value {
        LUMINATE_CCT_EMULATION_AUTO => Ok(CctEmulation::Auto),
        LUMINATE_CCT_EMULATION_DISABLED => Ok(CctEmulation::Disabled),
        _ => Err(LuminateStatus::InvalidArgument),
    }
}

/// Encodes a reconciliation policy as its C code.
pub fn reconciliation_to_u32(policy: ReconciliationPolicy) -> (code: u32)
    ensures
        code == reconciliation_code(policy),
{
    match policy {
        ReconciliationPolicy::Restore => LUMINATE_RECONCILIATION_POLICY_RESTORE,
        ReconciliationPolicy::Adopt => LUMINATE_RECONCILIATION_POLICY_ADOPT,
        ReconciliationPolicy::Leave => LUMINATE_RECONCILIATION_POLICY_LEAVE,
    }
}

/// Encodes an unsupported policy as its C code.
pub fn unsupported_to_u32(policy: UnsupportedPolicy) -> (code: u32)
    ensures
        code == unsupported_code(policy),
{
    match policy {
        UnsupportedPolicy::Skip => LUMINATE_UNSUPPORTED_POLICY_SKIP,
        UnsupportedPolicy::Reject => LUMINATE_UNSUPPORTED_POLICY_REJECT,
    }
}

/// Encodes a CCT-emulation mode as its C code.
pub fn cct_emulation_to_u32(mode: CctEmulation) -> (code: u32)
    ensures
        code == cct_emulation_code(mode),
{
    match mode {
        CctEmulation::Auto => LUMINATE_CCT_EMULATION_AUTO,
        CctEmulation::Disabled => LUMINATE_CCT_EMULATION_DISABLED,
    }
}

/// The code of an optional reconciliation policy, `u32::MAX` when absent.
pub open spec fn optional_reconciliation_code(value: Option<ReconciliationPolicy>) -> u32 {
    match value {
        Some(policy) => reconciliation_code(policy),
        None => LUMINATE_INVALID_CODE,
    }
}

/// Encodes an optional reconciliation policy, `u32::MAX` when absent.
pub fn reconciliation_or_invalid(value: Option<ReconciliationPolicy>) -> (code: u32)
    ensures
        code == optional_reconciliation_code(value),
{
    match value {
        Some(policy) => reconciliation_to_u32(policy),
        None => LUMINATE_INVALID_CODE,
    }
}

/// Decoding inverts encoding for every policy code, and a code that decodes
/// is the code of the policy it decodes to.
pub proof fn lemma_policy_codes_round_trip(
    reconcile: ReconciliationPolicy,
    skip: UnsupportedPolicy,
    mode: CctEmulation,
    value: u32,
)
    ensures
        reconciliation_outcome(reconciliation_code(reconcile)) == Ok::<ReconciliationPolicy, LuminateStatus>(reconcile),
        unsupported_outcome(unsupported_code(skip)) == Ok::<UnsupportedPolicy, LuminateStatus>(skip),
        cct_emulation_outcome(cct_emulation_code(mode)) == Ok::<CctEmulation, LuminateStatus>(mode),
        reconciliation_outcome(value) matches Ok(p) ==> reconciliation_code(p) == value,
        unsupported_outcome(value) matches Ok(p) ==> unsupported_code(p) == value,
        cct_emulation_outcome(value) matches Ok(m) ==> cct_emulation_code(m) == value,
        reconciliation_outcome(value) is Err <==> value > 2,
        unsupported_outcome(value) is Err <==> value > 1,
        cct_emulation_outcome(value) is Err <==> value > 1,
{
}

} // verus!

verus! {

/// A recursive plugin setting value. Tables list their entries in canonical
/// key order.
#[derive(Debug, PartialEq)]
pub enum LuminateSettingValueView {
    Boolean(bool),
    Integer(i64),
    /// The bit pattern of a finite binary64 number.
    Number(u64),
    String(String),
    Array(Vec<SettingValue>),
    Table(TextMap<SettingValue>),
}

/// A plugin setting value; borrowed ones are handed out as views.
pub type SettingValue = LuminateSettingValueView;

/// The mathematical content of a setting value.
pub enum SettingModel {
    Boolean(bool),
    Integer(i64),
    Number(u64),
    Text(Seq<char>),
    Array(Seq<SettingModel>),
    Table(Seq<(Seq<char>, SettingModel)>),
}

/// The content of a setting value, with table entries in canonical order.
pub open spec fn setting_model(value: SettingValue) -> SettingModel
    decreases value,
    via setting_model_decreases
{
    match value {
        SettingValue::Boolean(b) => SettingModel::Boolean(b),
        SettingValue::Integer(i) => SettingModel::Integer(i),
        SettingValue::Number(bits) => SettingModel::Number(bits),
        SettingValue::String(s) => SettingModel::Text(s@),
        SettingValue::Array(items) => SettingModel::Array(
            Seq::new(
                items@.len(),
                |i: int|
                    if 0 <= i < items@.len() {
                        setting_model(items@[i])
                    } else {
                        SettingModel::Boolean(false)
                    },
            ),
        ),
        SettingValue::Table(table) => SettingModel::Table(
            Seq::new(
                table.spec_len(),
                |i: int|
                    if 0 <= i < table.spec_len() {
                        (table.spec_entries()[i].0, setting_model(table.spec_entries()[i].1))
                    } else {
                        (Seq::empty(), SettingModel::Boolean(false))
                    },
            ),
        ),
    }
}

#[via_fn]
proof fn setting_model_decreases(value: SettingValue) {
    match value {
        SettingValue::Array(items) => {
            assert forall|i: int| 0 <= i < items@.len() implies decreases_to!(value => items@[i]) by {
                axiom_vec_index_decreases(items, i);
            }
        },
        SettingValue::Table(table) => {
            assert forall|i: int| 0 <= i < table.spec_len() implies decreases_to!(value => table.spec_entries()[i].1) by {
                table.lemma_value_decreases(i);
            }
        },
        _ => {},
    }
}

/// Whether a binary64 bit pattern denotes a finite number: its exponent
/// field is not all ones.
pub open spec fn finite_bits(bits: u64) -> bool {
    (bits >> 52u64) & 0x7ffu64 != 0x7ffu64
}

/// The C setting-value kind codes are fixed: boolean 0, integer 1, number 2,
/// string 3, array 4, table 5.
pub proof fn lemma_setting_kind_code_table(value: SettingValue)
    ensures
        value is Boolean ==> setting_kind_code(value) == 0,
        value is Integer ==> setting_kind_code(value) == 1,
        value is Number ==> setting_kind_code(value) == 2,
        value is String ==> setting_kind_code(value) == 3,
        value is Array ==> setting_kind_code(value) == 4,
        value is Table ==> setting_kind_code(value) == 5,
{
}

/// The `LUMINATE_MANAGEMENT_SETTING_*` code of a setting value.
pub open spec fn setting_kind_code(value: SettingValue) -> u32 {
    match value {
        SettingValue::Boolean(_) => 0,
        SettingValue::Integer(_) => 1,
        SettingValue::Number(_) => 2,
        SettingValue::String(_) => 3,
        SettingValue::Array(_) => 4,
        SettingValue::Table(_) => 5,
    }
}

impl LuminateSettingValueView {
    /// A deep, independent copy: nested arrays, tables, strings and keys are
    /// copied recursively.
    pub fn duplicate(&self) -> (copy: SettingValue)
        ensures
            setting_model(copy) == setting_model(*self),
        decreases self,
    {
        match self {
            SettingValue::Boolean(b) => SettingValue::Boolean(*b),
            SettingValue::Integer(i) => SettingValue::Integer(*i),
            SettingValue::Number(bits) => SettingValue::Number(*bits),
            SettingValue::String(s) => SettingValue::String(s.clone()),
            SettingValue::Array(items) => {
                let mut copies: Vec<SettingValue> = Vec::new();
                let mut i: usize = 0;
                while i < items.len()
                    invariant
                        0 <= i <= items@.len(),
                        copies@.len() == i,
                        forall|j: int| 0 <= j < i ==> setting_model(#[trigger] copies@[j]) == setting_model(items@[j]),
                        *self == SettingValue::Array(*items),
                    decreases items@.len() - i,
                {
                    proof {
                        axiom_vec_index_decreases(*items, i as int);
                        assert(decreases_to!(*self => (*self)->Array_0));
                        assert(decreases_to!(*self => items[i as int]));
                    }
                    let copy = items[i].duplicate();
                    copies.push(copy);
                    i = i + 1;
                }
                let copy = SettingValue::Array(copies);
                proof {
                    assert(setting_model(copy)->Array_0 =~= setting_model(*self)->Array_0);
                }
                copy
            },
            SettingValue::Table(table) => {
                let mut copies: TextMap<SettingValue> = TextMap::new();
                let n = table.len();
                let mut i: usize = 0;
                while i < n
                    invariant
                        n == table.spec_len(),
                        crate::canonical::sorted_texts(table.spec_keys()),
                        0 <= i <= n,
                        copies.spec_len() == i,
                        forall|j: int| 0 <= j < i ==> (#[trigger] copies.spec_entries()[j]).0 == table.spec_entries()[j].0,
                        forall|j: int| 0 <= j < i ==> setting_model(#[trigger] copies.spec_entries()[j].1) == setting_model(table.spec_entries()[j].1),
                        *self == SettingValue::Table(*table),
                    decreases n - i,
                {
                    proof {
                        table.lemma_value_decreases(i as int);
                        assert(decreases_to!(*self => (*self)->Table_0));
                        assert(decreases_to!(*self => table.spec_entries()[i as int].1));
                    }
                    let key = table.key_at(i).to_owned();
                    let value = table.value_at(i).duplicate();
                    proof {
                        if i > 0 {
                            assert(copies.spec_keys().last() == table.spec_keys()[i - 1]);
                            assert(table.spec_keys()[i as int] == key@);
                        }
                    }
                    copies.push_greatest(key, value);
                    i = i + 1;
                }
                let copy = SettingValue::Table(copies);
                proof {
                    assert(setting_model(copy)->Table_0 =~= setting_model(*self)->Table_0);
                }
                copy
            },
        }
    }
}

} // verus!

verus! {

/// An owned setting value built through the C API.
#[derive(Debug, PartialEq)]
pub struct LuminateSettingValue(pub SettingValue);

/// Stores a freshly built setting value through an output slot; a missing
/// slot is `NullPointer`.
pub fn setting_empty(out_value: Option<&mut Option<LuminateSettingValue>>, value: SettingValue) -> (status: LuminateStatus)
    ensures
        out_value is None ==> status == LuminateStatus::NullPointer,
        out_value matches Some(o) ==> status == LuminateStatus::Success
            && *final(o) == Some(LuminateSettingValue(value)),
{
    match out_value {
        None => LuminateStatus::NullPointer,
        Some(o) => {
            *o = Some(LuminateSettingValue(value));
            LuminateStatus::Success
        },
    }
}

/// Builds an owned boolean setting value.
pub fn luminate_setting_value_new_boolean(value: bool, out_value: Option<&mut Option<LuminateSettingValue>>) -> (status: LuminateStatus)
    ensures
        out_value is None ==> status == LuminateStatus::NullPointer,
        out_value matches Some(o) ==> status == LuminateStatus::Success
            && *final(o) == Some(LuminateSettingValue(SettingValue::Boolean(value))),
{
    setting_empty(out_value, SettingValue::Boolean(value))
}

/// Builds an owned integer setting value.
pub fn luminate_setting_value_new_integer(value: i64, out_value: Option<&mut Option<LuminateSettingValue>>) -> (status: LuminateStatus)
    ensures
        out_value is None ==> status == LuminateStatus::NullPointer,
        out_value matches Some(o) ==> status == LuminateStatus::Success
            && *final(o) == Some(LuminateSettingValue(SettingValue::Integer(value))),
{
    setting_empty(out_value, SettingValue::Integer(value))
}

/// Builds an owned number setting value from the bits of a binary64 number;
/// infinities and NaNs are `InvalidArgument`, and the slot is then left
/// untouched.
pub fn luminate_setting_value_new_number(bits: u64, out_value: Option<&mut Option<LuminateSettingValue>>) -> (status: LuminateStatus)
    ensures
        !finite_bits(bits) ==> status == LuminateStatus::InvalidArgument
            && (out_value matches Some(o) ==> *final(o) == *o),
        finite_bits(bits) && out_value is None ==> status == LuminateStatus::NullPointer,
        finite_bits(bits) ==> (out_value matches Some(o) ==> status == LuminateStatus::Success
            && *final(o) == Some(LuminateSettingValue(SettingValue::Number(bits)))),
{
    let exponent: u64 = (bits >> 52u64) & 0x7ffu64;
    if exponent == 0x7ffu64 {
        return LuminateStatus::InvalidArgument;
    }
    setting_empty(out_value, SettingValue::Number(bits))
}

/// Builds an owned string setting value from a NUL-terminated UTF-8 string.
pub fn luminate_setting_value_new_string(value: Option<&[u8]>, out_value: Option<&mut Option<LuminateSettingValue>>) -> (status: LuminateStatus)
    ensures
        match required_str_outcome(arg_bytes(value)) {
            Err(e) => status == e && (out_value matches Some(o) ==> *final(o) == *o),
            Ok(text) => match out_value {
                None => status == LuminateStatus::NullPointer,
                Some(o) => status == LuminateStatus::Success
                    && (*final(o) matches Some(v) && v.0 matches SettingValue::String(s) && s@ == text),
            },
        },
{
    let text = match read_owned_str(value) {
        Ok(text) => text,
        Err(status) => return status,
    };
    setting_empty(out_value, SettingValue::String(text))
}

/// Builds an owned, empty array setting value.
pub fn luminate_setting_value_new_array(out_value: Option<&mut Option<LuminateSettingValue>>) -> (status: LuminateStatus)
    ensures
        out_value is None ==> status == LuminateStatus::NullPointer,
        out_value matches Some(o) ==> status == LuminateStatus::Success
            && (*final(o) matches Some(v) && v.0 matches SettingValue::Array(items) && items@.len() == 0),
{
    setting_empty(out_value, SettingValue::Array(Vec::new()))
}

/// Builds an owned, empty table setting value.
pub fn luminate_setting_value_new_table(out_value: Option<&mut Option<LuminateSettingValue>>) -> (status: LuminateStatus)
    ensures
        out_value is None ==> status == LuminateStatus::NullPointer,
        out_value matches Some(o) ==> status == LuminateStatus::Success
            && (*final(o) matches Some(v) && v.0 matches SettingValue::Table(t) && t.spec_len() == 0),
{
    setting_empty(out_value, SettingValue::Table(TextMap::new()))
}

/// Appends a deep copy of `value` to an array setting value. A null array or
/// value is `NullPointer`; a non-array target is `InvalidArgument` and stays
/// unchanged.
pub fn luminate_setting_value_array_push(array: Option<&mut LuminateSettingValue>, value: Option<&LuminateSettingValue>) -> (status: LuminateStatus)
    ensures
        array is None ==> status == LuminateStatus::NullPointer,
        array matches Some(a) ==> match value {
            None => status == LuminateStatus::NullPointer && *final(a) == *a,
            Some(v) => match a.0 {
                SettingValue::Array(_) => status == LuminateStatus::Success
                    && setting_model(final(a).0) == SettingModel::Array(setting_model(a.0)->Array_0.push(setting_model(v.0))),
                _ => status == LuminateStatus::InvalidArgument && *final(a) == *a,
            },
        },
{
    let a = match array {
        None => return LuminateStatus::NullPointer,
        Some(a) => a,
    };
    let v = match value {
        None => return LuminateStatus::NullPointer,
        Some(v) => v,
    };
    match &a.0 {
        SettingValue::Array(_) => {},
        _ => return LuminateStatus::InvalidArgument,
    }
    let copy = v.0.duplicate();
    let mut current = SettingValue::Boolean(false);
    std::mem::swap(&mut current, &mut a.0);
    match current {
        SettingValue::Array(mut items) => {
            let ghost before = setting_model(SettingValue::Array(items));
            items.push(copy);
            let after = SettingValue::Array(items);
            assert(setting_model(after)->Array_0 =~= before->Array_0.push(setting_model(v.0)));
            a.0 = after;
        },
        other => {
            a.0 = other;
        },
    }
    LuminateStatus::Success
}

/// Whether `after` is the table `before` with `key` now mapped to a value
/// whose content is `value`, every other entry unchanged.
pub open spec fn table_inserted(before: SettingValue, after: SettingValue, key: Seq<char>, value: SettingModel) -> bool {
    &&& before matches SettingValue::Table(t)
    &&& after matches SettingValue::Table(u)
    &&& u.spec_map().dom() == t.spec_map().dom().insert(key)
    &&& setting_model(u.spec_map()[key]) == value
    &&& forall|k: Seq<char>| k != key && #[trigger] t.spec_map().contains_key(k) ==> u.spec_map()[k] == t.spec_map()[k]
}

/// Two inserts under one key keep the key once, with the content of the
/// second value, and leave every other entry as it was.
pub proof fn lemma_table_insert_last_write_wins(
    first: SettingValue,
    second: SettingValue,
    third: SettingValue,
    key: Seq<char>,
    a: SettingModel,
    b: SettingModel,
)
    requires
        table_inserted(first, second, key, a),
        table_inserted(second, third, key, b),
    ensures
        table_inserted(first, third, key, b),
{
    let t = first->Table_0;
    let u = second->Table_0;
    let w = third->Table_0;
    assert(w.spec_map().dom() =~= t.spec_map().dom().insert(key));
    assert forall|k: Seq<char>| k != key && #[trigger] t.spec_map().contains_key(k) implies w.spec_map()[k] == t.spec_map()[k] by {
        assert(u.spec_map().contains_key(k));
    }
}

/// Stores a deep copy of `value` under `key` in a table setting value,
/// replacing any previous entry. Checks run in order: null table, null
/// value, unreadable key, non-table target (`InvalidArgument`); on any
/// failure the table is unchanged.
pub fn luminate_setting_value_table_insert(
    table: Option<&mut LuminateSettingValue>,
    key: Option<&[u8]>,
    value: Option<&LuminateSettingValue>,
) -> (status: LuminateStatus)
    ensures
        table is None ==> status == LuminateStatus::NullPointer,
        table matches Some(t) ==> match value {
            None => status == LuminateStatus::NullPointer && *final(t) == *t,
            Some(v) => match required_str_outcome(arg_bytes(key)) {
                Err(e) => status == e && *final(t) == *t,
                Ok(k) => match t.0 {
                    SettingValue::Table(_) => status == LuminateStatus::Success
                        && table_inserted(t.0, final(t).0, k, setting_model(v.0)),
                    _ => status == LuminateStatus::InvalidArgument && *final(t) == *t,
                },
            },
        },
{
    let t = match table {
        None => return LuminateStatus::NullPointer,
        Some(t) => t,
    };
    let v = match value {
        None => return LuminateStatus::NullPointer,
        Some(v) => v,
    };
    let k = match read_owned_str(key) {
        Ok(k) => k,
        Err(status) => return status,
    };
    match &t.0 {
        SettingValue::Table(_) => {},
        _ => return LuminateStatus::InvalidArgument,
    }
    let copy = v.0.duplicate();
    let ghost copy_model = setting_model(copy);
    let ghost key_view = k@;
    let mut current = SettingValue::Boolean(false);
    std::mem::swap(&mut current, &mut t.0);
    match current {
        SettingValue::Table(mut entries) => {
            let ghost before = entries;
            let _ = entries.insert(k, copy);
            proof {
                assert(entries.spec_map().dom() =~= before.spec_map().dom().insert(key_view));
            }
            t.0 = SettingValue::Table(entries);
        },
        other => {
            t.0 = other;
        },
    }
    LuminateStatus::Success
}

} // verus!

verus! {

/// A per-device reconciliation preference.
#[derive(Debug)]
pub struct LuminateDeviceReconciliationPreference {
    pub device: String,
    pub policy: ReconciliationPolicy,
}

pub type DeviceReconciliationPreference = LuminateDeviceReconciliationPreference;

/// Daemon-wide preferences; every field is optional.
#[derive(Debug)]
pub struct LuminateDaemonPreferences {
    pub default_unsupported_policy: Option<UnsupportedPolicy>,
    pub reconciliation_policy: Option<ReconciliationPolicy>,
    pub device_reconciliation: Vec<DeviceReconciliationPreference>,
    pub cct_emulation: Option<CctEmulation>,
    pub prefer_shm: Option<bool>,
    pub prefer_client_shm: Option<bool>,
}

pub type DaemonPreferences = LuminateDaemonPreferences;

/// The content of daemon preferences.
pub struct PreferencesView {
    pub default_unsupported_policy: Option<UnsupportedPolicy>,
    pub reconciliation_policy: Option<ReconciliationPolicy>,
    pub device_reconciliation: Seq<(Seq<char>, ReconciliationPolicy)>,
    pub cct_emulation: Option<CctEmulation>,
    pub prefer_shm: Option<bool>,
    pub prefer_client_shm: Option<bool>,
}

/// The device and policy of each per-device preference, in order.
pub open spec fn devices_view(devices: Seq<DeviceReconciliationPreference>) -> Seq<(Seq<char>, ReconciliationPolicy)> {
    devices.map_values(|d: DeviceReconciliationPreference| (d.device@, d.policy))
}

impl LuminateDaemonPreferences {
    pub open spec fn view(&self) -> PreferencesView {
        PreferencesView {
            default_unsupported_policy: self.default_unsupported_policy,
            reconciliation_policy: self.reconciliation_policy,
            device_reconciliation: devices_view(self.device_reconciliation@),
            cct_emulation: self.cct_emulation,
            prefer_shm: self.prefer_shm,
            prefer_client_shm: self.prefer_client_shm,
        }
    }
}

/// One caller-owned per-device preference: a C string device id and a
/// reconciliation code.
#[derive(Clone, Copy)]
pub struct LuminateDeviceReconciliationPreferenceInput<'a> {
    pub device_id: Option<&'a [u8]>,
    pub policy: u32,
}

/// Caller-owned optional daemon preferences. Each `has_*` flag says whether
/// the field beside it is present; the device array holds
/// `device_reconciliation_count` entries.
#[derive(Clone, Copy)]
pub struct LuminateDaemonPreferencesInput<'a> {
    pub has_default_unsupported_policy: bool,
    pub default_unsupported_policy: u32,
    pub has_reconciliation_policy: bool,
    pub reconciliation_policy: u32,
    pub device_reconciliation: Option<&'a [LuminateDeviceReconciliationPreferenceInput<'a>]>,
    pub device_reconciliation_count: usize,
    pub has_cct_emulation: bool,
    pub cct_emulation: u32,
    pub has_prefer_shm: bool,
    pub prefer_shm: bool,
    pub has_prefer_client_shm: bool,
    pub prefer_client_shm: bool,
}

impl<'a> LuminateDaemonPreferencesInput<'a> {
    /// A present device array holds exactly the counted entries.
    pub open spec fn wf(&self) -> bool {
        self.device_reconciliation matches Some(items) ==> items@.len() == self.device_reconciliation_count
    }
}

/// An optional field: absent when its flag is clear, else its decoding.
pub open spec fn optional_decode<T>(has_value: bool, decoded: Result<T, LuminateStatus>) -> Result<Option<T>, LuminateStatus> {
    if has_value {
        match decoded {
            Ok(value) => Ok(Some(value)),
            Err(status) => Err(status),
        }
    } else {
        Ok(None)
    }
}

/// Decoding of one per-device preference: the device id first, then the
/// policy code.
pub open spec fn device_outcome(entry: LuminateDeviceReconciliationPreferenceInput) -> Result<(Seq<char>, ReconciliationPolicy), LuminateStatus> {
    match required_str_outcome(arg_bytes(entry.device_id)) {
        Err(status) => Err(status),
        Ok(device) => match reconciliation_outcome(entry.policy) {
            Err(status) => Err(status),
            Ok(policy) => Ok((device, policy)),
        },
    }
}

/// Decoding of per-device preferences in order; the first failure wins.
pub open spec fn devices_outcome(entries: Seq<LuminateDeviceReconciliationPreferenceInput>) -> Result<Seq<(Seq<char>, ReconciliationPolicy)>, LuminateStatus>
    decreases entries.len(),
{
    if entries.len() == 0 {
        Ok(Seq::empty())
    } else {
        match devices_outcome(entries.drop_last()) {
            Err(status) => Err(status),
            Ok(prefix) => match device_outcome(entries.last()) {
                Err(status) => Err(status),
                Ok(device) => Ok(prefix.push(device)),
            },
        }
    }
}

/// Decoding of the counted device array: a zero count never reads the
/// array; a null array with a non-zero count is `NullPointer`.
pub open spec fn device_list_outcome<'a>(input: LuminateDaemonPreferencesInput<'a>) -> Result<Seq<(Seq<char>, ReconciliationPolicy)>, LuminateStatus> {
    if input.device_reconciliation_count == 0 {
        Ok(Seq::empty())
    } else {
        match input.device_reconciliation {
            None => Err(LuminateStatus::NullPointer),
            Some(items) => devices_outcome(items@),
        }
    }
}

/// Decoding of daemon preferences. Fields are checked in order: default
/// unsupported policy, reconciliation policy, CCT emulation, then the device
/// list; the first failure is reported.
pub open spec fn preferences_outcome<'a>(input: LuminateDaemonPreferencesInput<'a>) -> Result<PreferencesView, LuminateStatus> {
    match optional_decode(input.has_default_unsupported_policy, unsupported_outcome(input.default_unsupported_policy)) {
        Err(status) => Err(status),
        Ok(default_unsupported_policy) => match optional_decode(input.has_reconciliation_policy, reconciliation_outcome(input.reconciliation_policy)) {
            Err(status) => Err(status),
            Ok(reconciliation_policy) => match optional_decode(input.has_cct_emulation, cct_emulation_outcome(input.cct_emulation)) {
                Err(status) => Err(status),
                Ok(cct_emulation) => match device_list_outcome(input) {
                    Err(status) => Err(status),
                    Ok(device_reconciliation) => Ok(PreferencesView {
                        default_unsupported_policy,
                        reconciliation_policy,
                        device_reconciliation,
                        cct_emulation,
                        prefer_shm: if input.has_prefer_shm { Some(input.prefer_shm) } else { None },
                        prefer_client_shm: if input.has_prefer_client_shm { Some(input.prefer_client_shm) } else { None },
                    }),
                },
            },
        },
    }
}

/// Decoding daemon preferences never fails with the success status.
pub proof fn lemma_preferences_failures_are_failures<'a>(input: LuminateDaemonPreferencesInput<'a>)
    ensures
        preferences_outcome(input) matches Err(s) ==> s != LuminateStatus::Success,
{
    if let Some(items) = input.device_reconciliation {
        lemma_devices_failures(items@);
    }
}

proof fn lemma_devices_failures(entries: Seq<LuminateDeviceReconciliationPreferenceInput>)
    ensures
        devices_outcome(entries) matches Err(s) ==> s != LuminateStatus::Success,
    decreases entries.len(),
{
    if entries.len() > 0 {
        lemma_devices_failures(entries.drop_last());
    }
}

/// Decoded per-device preferences keep the caller's order, and each entry's
/// device and policy come from that entry's own fields.
proof fn lemma_devices_pointwise(entries: Seq<LuminateDeviceReconciliationPreferenceInput>)
    requires
        devices_outcome(entries) is Ok,
    ensures
        devices_outcome(entries)->Ok_0.len() == entries.len(),
        forall|i: int| 0 <= i < entries.len() ==> {
            let d = #[trigger] devices_outcome(entries)->Ok_0[i];
            &&& required_str_outcome(arg_bytes(entries[i].device_id)) == Ok::<Seq<char>, LuminateStatus>(d.0)
            &&& reconciliation_code(d.1) == entries[i].policy
        },
    decreases entries.len(),
{
    lemma_reconciliation_code_table(0);
    if entries.len() > 0 {
        lemma_devices_pointwise(entries.drop_last());
    }
}

/// Every field of decoded daemon preferences is read from its own input
/// fields: each optional field is present exactly when its flag is set and
/// then carries the caller's value (a policy or emulation mode whose C code
/// is the caller's code), and the per-device overrides are the caller's
/// entries, in order.
pub proof fn lemma_preferences_fields_from_their_inputs<'a>(input: LuminateDaemonPreferencesInput<'a>)
    requires
        input.wf(),
    ensures
        preferences_outcome(input) matches Ok(v) ==> {
            &&& v.prefer_shm == (if input.has_prefer_shm { Some(input.prefer_shm) } else { None::<bool> })
            &&& v.prefer_client_shm == (if input.has_prefer_client_shm { Some(input.prefer_client_shm) } else { None::<bool> })
            &&& (v.default_unsupported_policy is Some <==> input.has_default_unsupported_policy)
            &&& (v.default_unsupported_policy matches Some(p) ==> unsupported_code(p) == input.default_unsupported_policy)
            &&& (v.reconciliation_policy is Some <==> input.has_reconciliation_policy)
            &&& (v.reconciliation_policy matches Some(p) ==> reconciliation_code(p) == input.reconciliation_policy)
            &&& (v.cct_emulation is Some <==> input.has_cct_emulation)
            &&& (v.cct_emulation matches Some(m) ==> cct_emulation_code(m) == input.cct_emulation)
            &&& v.device_reconciliation.len() == input.device_reconciliation_count
            &&& forall|i: int| 0 <= i < v.device_reconciliation.len() ==> {
                let entry = input.device_reconciliation->0@[i];
                &&& required_str_outcome(arg_bytes(entry.device_id))
                    == Ok::<Seq<char>, LuminateStatus>((#[trigger] v.device_reconciliation[i]).0)
                &&& reconciliation_code(v.device_reconciliation[i].1) == entry.policy
            }
        },
{
    lemma_reconciliation_code_table(0);
    lemma_unsupported_code_table(0);
    lemma_cct_emulation_code_table(0);
    if input.device_reconciliation_count != 0 {
        if let Some(items) = input.device_reconciliation {
            if devices_outcome(items@) is Ok {
                lemma_devices_pointwise(items@);
            }
        }
    }
}

/// An optional boolean: `value` when `has_value`, otherwise absent.
pub fn read_optional_bool(has_value: bool, value: bool) -> (result: Option<bool>)
    ensures
        result == (if has_value { Some(value) } else { None::<bool> }),
{
    if has_value { Some(value) } else { None }
}

proof fn lemma_devices_error_persists(items: Seq<LuminateDeviceReconciliationPreferenceInput>, k: int, status: LuminateStatus)
    requires
        0 <= k <= items.len(),
        devices_outcome(items.take(k)) == Err::<Seq<(Seq<char>, ReconciliationPolicy)>, LuminateStatus>(status),
    ensures
        devices_outcome(items) == Err::<Seq<(Seq<char>, ReconciliationPolicy)>, LuminateStatus>(status),
    decreases items.len() - k,
{
    if k < items.len() {
        assert(items.take(k + 1).drop_last() =~= items.take(k));
        lemma_devices_error_persists(items, k + 1, status);
    } else {
        assert(items.take(k) =~= items);
    }
}

fn read_devices(items: &[LuminateDeviceReconciliationPreferenceInput]) -> (result: Result<Vec<DeviceReconciliationPreference>, LuminateStatus>)
    ensures
        match result {
            Ok(devices) => devices_outcome(items@) == Ok::<Seq<(Seq<char>, ReconciliationPolicy)>, LuminateStatus>(devices_view(devices@)),
            Err(status) => devices_outcome(items@) == Err::<Seq<(Seq<char>, ReconciliationPolicy)>, LuminateStatus>(status),
        },
{
    let mut devices: Vec<DeviceReconciliationPreference> = Vec::new();
    let mut i: usize = 0;
    assert(items@.take(0) =~= Seq::<LuminateDeviceReconciliationPreferenceInput>::empty());
    assert(devices_view(devices@) =~= Seq::<(Seq<char>, ReconciliationPolicy)>::empty());
    while i < items.len()
        invariant
            0 <= i <= items@.len(),
            devices_outcome(items@.take(i as int)) == Ok::<Seq<(Seq<char>, ReconciliationPolicy)>, LuminateStatus>(devices_view(devices@)),
        decreases items@.len() - i,
    {
        assert(items@.take(i + 1).drop_last() =~= items@.take(i as int));
        assert(items@.take(i + 1).last() == items@[i as int]);
        let entry = items[i];
        let device = match read_owned_str(entry.device_id) {
            Ok(device) => device,
            Err(status) => {
                proof { lemma_devices_error_persists(items@, i + 1, status); }
                return Err(status);
            },
        };
        let policy = match reconciliation(entry.policy) {
            Ok(policy) => policy,
            Err(status) => {
                proof { lemma_devices_error_persists(items@, i + 1, status); }
                return Err(status);
            },
        };
        let ghost prev = devices@;
        let ghost device_view = device@;
        devices.push(DeviceReconciliationPreference { device, policy });
        assert(devices_view(devices@) =~= devices_view(prev).push((device_view, policy)));
        i = i + 1;
    }
    assert(items@.take(items@.len() as int) =~= items@);
    Ok(devices)
}

/// Decodes caller-owned daemon preferences into owned preferences,
/// copying every device id.
pub fn preferences_input(input: &LuminateDaemonPreferencesInput) -> (result: Result<DaemonPreferences, LuminateStatus>)
    requires
        input.wf(),
    ensures
        match result {
            Ok(preferences) => preferences_outcome(*input) == Ok::<PreferencesView, LuminateStatus>(preferences.view()),
            Err(status) => preferences_outcome(*input) == Err::<PreferencesView, LuminateStatus>(status),
        },
{
    let default_unsupported_policy = if input.has_default_unsupported_policy {
        match unsupported(input.default_unsupported_policy) {
            Ok(value) => Some(value),
            Err(status) => return Err(status),
        }
    } else {
        None
    };
    let reconciliation_policy = if input.has_reconciliation_policy {
        match reconciliation(input.reconciliation_policy) {
            Ok(value) => Some(value),
            Err(status) => return Err(status),
        }
    } else {
        None
    };
    let cct = if input.has_cct_emulation {
        match cct_emulation(input.cct_emulation) {
            Ok(value) => Some(value),
            Err(status) => return Err(status),
        }
    } else {
        None
    };
    let device_reconciliation = if input.device_reconciliation_count == 0 {
        let devices: Vec<DeviceReconciliationPreference> = Vec::new();
        assert(devices_view(devices@) =~= Seq::<(Seq<char>, ReconciliationPolicy)>::empty());
        devices
    } else {
        match input.device_reconciliation {
            None => return Err(LuminateStatus::NullPointer),
            Some(items) => match read_devices(items) {
                Ok(devices) => devices,
                Err(status) => return Err(status),
            },
        }
    };
    Ok(DaemonPreferences {
        default_unsupported_policy,
        reconciliation_policy,
        device_reconciliation,
        cct_emulation: cct,
        prefer_shm: read_optional_bool(input.has_prefer_shm, input.prefer_shm),
        prefer_client_shm: read_optional_bool(input.has_prefer_client_shm, input.prefer_client_shm),
    })
}

} // verus!

verus! {

/// One mutation of an atomic management patch.
#[derive(Debug)]
pub enum ManagementMutation {
    SetDaemonPreferences(DaemonPreferences),
    SetPluginEnabled { plugin: String, enabled: Option<bool> },
    SetPluginReconciliation { plugin: String, reconciliation: Option<ReconciliationPolicy> },
    /// A write-only setting value: never reported back.
    SetPluginSetting { plugin: String, key: String, value: SettingValue },
    ClearPluginSetting { plugin: String, key: String },
}

/// The content of a mutation.
pub enum MutationView {
    SetDaemonPreferences(PreferencesView),
    SetPluginEnabled { plugin: Seq<char>, enabled: Option<bool> },
    SetPluginReconciliation { plugin: Seq<char>, reconciliation: Option<ReconciliationPolicy> },
    SetPluginSetting { plugin: Seq<char>, key: Seq<char>, value: SettingModel },
    ClearPluginSetting { plugin: Seq<char>, key: Seq<char> },
}

pub open spec fn mutation_view(mutation: ManagementMutation) -> MutationView {
    match mutation {
        ManagementMutation::SetDaemonPreferences(p) => MutationView::SetDaemonPreferences(p.view()),
        ManagementMutation::SetPluginEnabled { plugin, enabled } => MutationView::SetPluginEnabled { plugin: plugin@, enabled },
        ManagementMutation::SetPluginReconciliation { plugin, reconciliation } =>
            MutationView::SetPluginReconciliation { plugin: plugin@, reconciliation },
        ManagementMutation::SetPluginSetting { plugin, key, value } =>
            MutationView::SetPluginSetting { plugin: plugin@, key: key@, value: setting_model(value) },
        ManagementMutation::ClearPluginSetting { plugin, key } => MutationView::ClearPluginSetting { plugin: plugin@, key: key@ },
    }
}

/// An atomic management patch: applied only at `expected_revision`.
#[derive(Debug)]
pub struct ManagementPatch {
    pub expected_revision: u64,
    pub mutations: Vec<ManagementMutation>,
}

/// The content of a patch.
pub struct PatchView {
    pub expected_revision: u64,
    pub mutations: Seq<MutationView>,
}

/// A mutable, reusable patch builder; every mutation copies its inputs.
#[derive(Debug)]
pub struct LuminateManagementPatchBuilder(pub ManagementPatch);

impl LuminateManagementPatchBuilder {
    pub open spec fn view(&self) -> PatchView {
        PatchView {
            expected_revision: self.0.expected_revision,
            mutations: self.0.mutations@.map_values(|m: ManagementMutation| mutation_view(m)),
        }
    }
}

/// A patch with one more mutation at its end.
pub open spec fn pushed(patch: PatchView, mutation: MutationView) -> PatchView {
    PatchView { mutations: patch.mutations.push(mutation), ..patch }
}

fn push_mutation(builder: &mut LuminateManagementPatchBuilder, mutation: ManagementMutation)
    ensures
        final(builder).view() == pushed(old(builder).view(), mutation_view(mutation)),
{
    let ghost before = builder.view();
    let ghost m = mutation_view(mutation);
    builder.0.mutations.push(mutation);
    assert(builder.view().mutations =~= before.mutations.push(m));
}

/// Creates an empty patch builder expecting `expected_revision`.
pub fn luminate_management_patch_builder_new(expected_revision: u64, out_builder: Option<&mut Option<LuminateManagementPatchBuilder>>) -> (status: LuminateStatus)
    ensures
        out_builder is None ==> status == LuminateStatus::NullPointer,
        out_builder matches Some(o) ==> status == LuminateStatus::Success
            && (*final(o) matches Some(b) && b.view().expected_revision == expected_revision && b.view().mutations.len() == 0),
{
    match out_builder {
        None => LuminateStatus::NullPointer,
        Some(o) => {
            *o = Some(LuminateManagementPatchBuilder(ManagementPatch { expected_revision, mutations: Vec::new() }));
            LuminateStatus::Success
        },
    }
}

/// Sets the revision at which the patch applies.
pub fn luminate_management_patch_builder_set_expected_revision(builder: Option<&mut LuminateManagementPatchBuilder>, expected_revision: u64) -> (status: LuminateStatus)
    ensures
        builder is None ==> status == LuminateStatus::NullPointer,
        builder matches Some(b) ==> status == LuminateStatus::Success
            && final(b).view() == (PatchView { expected_revision, ..b.view() }),
{
    match builder {
        None => LuminateStatus::NullPointer,
        Some(b) => {
            let ghost before = b.view();
            b.0.expected_revision = expected_revision;
            assert(b.view().mutations =~= before.mutations);
            LuminateStatus::Success
        },
    }
}

/// Appends a daemon-preferences mutation decoded from caller input.
pub fn luminate_management_patch_builder_set_daemon_preferences(
    builder: Option<&mut LuminateManagementPatchBuilder>,
    preferences: Option<&LuminateDaemonPreferencesInput>,
) -> (status: LuminateStatus)
    requires
        preferences matches Some(p) ==> p.wf(),
    ensures
        builder is None ==> status == LuminateStatus::NullPointer,
        builder matches Some(b) ==> match preferences {
            None => status == LuminateStatus::NullPointer && final(b).view() == b.view(),
            Some(p) => match preferences_outcome(*p) {
                Ok(view) => status == LuminateStatus::Success
                    && final(b).view() == pushed(b.view(), MutationView::SetDaemonPreferences(view)),
                Err(e) => status == e && e != LuminateStatus::Success && final(b).view() == b.view(),
            },
        },
{
    if let Some(p) = preferences {
        proof { lemma_preferences_failures_are_failures(*p); }
    }
    let b = match builder {
        None => return LuminateStatus::NullPointer,
        Some(b) => b,
    };
    let p = match preferences {
        None => return LuminateStatus::NullPointer,
        Some(p) => p,
    };
    let decoded = match preferences_input(p) {
        Ok(value) => value,
        Err(status) => return status,
    };
    push_mutation(b, ManagementMutation::SetDaemonPreferences(decoded));
    LuminateStatus::Success
}

/// Appends a plugin-activation mutation; `has_enabled` false clears the
/// desired activation.
pub fn luminate_management_patch_builder_set_plugin_enabled(
    builder: Option<&mut LuminateManagementPatchBuilder>,
    plugin: Option<&[u8]>,
    has_enabled: bool,
    enabled: bool,
) -> (status: LuminateStatus)
    ensures
        builder is None ==> status == LuminateStatus::NullPointer,
        builder matches Some(b) ==> match required_str_outcome(arg_bytes(plugin)) {
            Ok(name) => status == LuminateStatus::Success && final(b).view() == pushed(
                b.view(),
                MutationView::SetPluginEnabled { plugin: name, enabled: if has_enabled { Some(enabled) } else { None } },
            ),
            Err(e) => status == e && final(b).view() == b.view(),
        },
{
    let b = match builder {
        None => return LuminateStatus::NullPointer,
        Some(b) => b,
    };
    let name = match read_owned_str(plugin) {
        Ok(name) => name,
        Err(status) => return status,
    };
    push_mutation(b, ManagementMutation::SetPluginEnabled { plugin: name, enabled: read_optional_bool(has_enabled, enabled) });
    LuminateStatus::Success
}

/// Appends a plugin-reconciliation mutation; `has_reconciliation` false
/// clears the desired policy, otherwise the code must be known.
pub fn luminate_management_patch_builder_set_plugin_reconciliation(
    builder: Option<&mut LuminateManagementPatchBuilder>,
    plugin: Option<&[u8]>,
    has_reconciliation: bool,
    reconciliation_value: u32,
) -> (status: LuminateStatus)
    ensures
        builder is None ==> status == LuminateStatus::NullPointer,
        builder matches Some(b) ==> match required_str_outcome(arg_bytes(plugin)) {
            Err(e) => status == e && final(b).view() == b.view(),
            Ok(name) => match optional_decode(has_reconciliation, reconciliation_outcome(reconciliation_value)) {
                Ok(policy) => status == LuminateStatus::Success && final(b).view() == pushed(
                    b.view(),
                    MutationView::SetPluginReconciliation { plugin: name, reconciliation: policy },
                ),
                Err(e) => status == e && final(b).view() == b.view(),
            },
        },
{
    let b = match builder {
        None => return LuminateStatus::NullPointer,
        Some(b) => b,
    };
    let name = match read_owned_str(plugin) {
        Ok(name) => name,
        Err(status) => return status,
    };
    let policy = if has_reconciliation {
        match reconciliation(reconciliation_value) {
            Ok(value) => Some(value),
            Err(status) => return status,
        }
    } else {
        None
    };
    push_mutation(b, ManagementMutation::SetPluginReconciliation { plugin: name, reconciliation: policy });
    LuminateStatus::Success
}

/// Appends a write-only plugin-setting mutation holding a deep copy of
/// `value`. Checks run in order: null builder, null value, plugin name,
/// setting key.
pub fn luminate_management_patch_builder_set_plugin_setting(
    builder: Option<&mut LuminateManagementPatchBuilder>,
    plugin: Option<&[u8]>,
    key: Option<&[u8]>,
    value: Option<&LuminateSettingValue>,
) -> (status: LuminateStatus)
    ensures
        builder is None ==> status == LuminateStatus::NullPointer,
        builder matches Some(b) ==> match value {
            None => status == LuminateStatus::NullPointer && final(b).view() == b.view(),
            Some(v) => match required_str_outcome(arg_bytes(plugin)) {
                Err(e) => status == e && final(b).view() == b.view(),
                Ok(name) => match required_str_outcome(arg_bytes(key)) {
                    Err(e) => status == e && final(b).view() == b.view(),
                    Ok(k) => status == LuminateStatus::Success && final(b).view() == pushed(
                        b.view(),
                        MutationView::SetPluginSetting { plugin: name, key: k, value: setting_model(v.0) },
                    ),
                },
            },
        },
{
    let b = match builder {
        None => return LuminateStatus::NullPointer,
        Some(b) => b,
    };
    let v = match value {
        None => return LuminateStatus::NullPointer,
        Some(v) => v,
    };
    let name = match read_owned_str(plugin) {
        Ok(name) => name,
        Err(status) => return status,
    };
    let k = match read_owned_str(key) {
        Ok(k) => k,
        Err(status) => return status,
    };
    let copy = v.0.duplicate();
    push_mutation(b, ManagementMutation::SetPluginSetting { plugin: name, key: k, value: copy });
    LuminateStatus::Success
}

/// Appends a mutation that clears one plugin setting.
pub fn luminate_management_patch_builder_clear_plugin_setting(
    builder: Option<&mut LuminateManagementPatchBuilder>,
    plugin: Option<&[u8]>,
    key: Option<&[u8]>,
) -> (status: LuminateStatus)
    ensures
        builder is None ==> status == LuminateStatus::NullPointer,
        builder matches Some(b) ==> match required_str_outcome(arg_bytes(plugin)) {
            Err(e) => status == e && final(b).view() == b.view(),
            Ok(name) => match required_str_outcome(arg_bytes(key)) {
                Err(e) => status == e && final(b).view() == b.view(),
                Ok(k) => status == LuminateStatus::Success
                    && final(b).view() == pushed(b.view(), MutationView::ClearPluginSetting { plugin: name, key: k }),
            },
        },
{
    let b = match builder {
        None => return LuminateStatus::NullPointer,
        Some(b) => b,
    };
    let name = match read_owned_str(plugin) {
        Ok(name) => name,
        Err(status) => return status,
    };
    let k = match read_owned_str(key) {
        Ok(k) => k,
        Err(status) => return status,
    };
    push_mutation(b, ManagementMutation::ClearPluginSetting { plugin: name, key: k });
    LuminateStatus::Success
}

} // verus!

verus! {

/// A setting value as reported by the daemon: unset, visible, or redacted
/// because it is sensitive.
#[derive(Debug)]
pub enum LuminateReportedSettingValue {
    Unset,
    Visible(SettingValue),
    Redacted,
}

pub type ReportedSettingValue = LuminateReportedSettingValue;

/// The type a plugin declares for one of its settings.
#[derive(Debug, Clone, Copy, PartialEq, Eq, Structural)]
pub enum PluginSettingKind {
    Boolean,
    Integer,
    Number,
    String,
    Enumeration,
    Array,
}

/// When a changed plugin setting takes effect.
#[derive(Debug, Clone, Copy, PartialEq, Eq, Structural)]
pub enum PluginSettingApplyMode {
    Live,
    RestartRequired,
}

/// The schema of one plugin setting. Bounds are binary64 bit patterns.
#[derive(Debug)]
pub struct LuminatePluginSettingSchema {
    pub key: String,
    pub label: String,
    pub description: String,
    pub kind: PluginSettingKind,
    pub default: ReportedSettingValue,
    pub required: bool,
    pub sensitive: bool,
    pub apply_mode: PluginSettingApplyMode,
    pub minimum: Option<u64>,
    pub maximum: Option<u64>,
    pub constraints: ReportedSettingValue,
}

pub type PluginSettingSchema = LuminatePluginSettingSchema;

/// The lifecycle state of a plugin.
#[derive(Debug)]
pub enum PluginRuntimeState {
    Inactive,
    Loading,
    Loaded,
    Failed { diagnostic: String },
}

/// A managed plugin as reported in a snapshot.
#[derive(Debug)]
pub struct LuminateManagedPlugin {
    pub name: String,
    pub version: String,
    pub required: bool,
    pub desired_enabled: Option<bool>,
    pub desired_reconciliation: Option<ReconciliationPolicy>,
    pub effective_reconciliation: Option<ReconciliationPolicy>,
    pub effective_enabled: bool,
    pub runtime: PluginRuntimeState,
    pub activation_locked: bool,
    pub schema: Vec<PluginSettingSchema>,
    pub desired_settings: TextMap<ReportedSettingValue>,
    pub effective_settings: TextMap<ReportedSettingValue>,
    pub locked_settings: Vec<String>,
}

pub type ManagedPlugin = LuminateManagedPlugin;

/// The authoritative management state at one revision.
#[derive(Debug)]
pub struct ManagementSnapshot {
    pub revision: u64,
    pub desired_daemon: DaemonPreferences,
    pub effective_daemon: DaemonPreferences,
    pub locked_daemon_settings: Vec<String>,
    pub plugins: Vec<ManagedPlugin>,
}

/// An owned management snapshot.
#[derive(Debug)]
pub struct LuminateManagementSnapshot(pub ManagementSnapshot);

/// One redacted change committed by a management patch.
#[derive(Debug)]
pub enum LuminateManagementChange {
    DaemonPreferencesChanged { keys: Vec<String> },
    PluginActivationChanged { plugin: String },
    PluginReconciliationChanged { plugin: String },
    PluginSettingChanged { plugin: String, key: String, sensitive: bool },
}

pub type ManagementChange = LuminateManagementChange;

/// The redacted changes committed at one revision, as carried by an event.
#[derive(Debug)]
pub struct LuminateManagementChangeSetView {
    pub revision: u64,
    pub changes: Vec<ManagementChange>,
}

pub type ManagementChangeSet = LuminateManagementChangeSetView;

/// An owned change set returned by an applied patch.
#[derive(Debug)]
pub struct LuminateManagementChangeSet(pub ManagementChangeSet);

/// The `index`-th string of a list, when in range.
pub fn string_at(values: &Vec<String>, index: usize) -> (text: Option<&str>)
    ensures
        opt_str(text) == set_text_at(texts_of(values@), index),
{
    if index < values.len() { Some(values[index].as_str()) } else { None }
}

/// The borrowed daemon-preferences view of owned preferences.
pub fn preferences_ptr(value: &DaemonPreferences) -> (view: &LuminateDaemonPreferences)
    ensures
        *view == *value,
{
    value
}

/// Snapshot revision, or 0 for a null snapshot.
pub fn luminate_management_snapshot_revision(snapshot: Option<&LuminateManagementSnapshot>) -> (revision: u64)
    ensures
        revision == match snapshot { Some(s) => s.0.revision, None => 0 },
{
    match snapshot {
        Some(s) => s.0.revision,
        None => 0,
    }
}

/// Desired daemon preferences of a snapshot.
pub fn luminate_management_snapshot_desired_daemon(snapshot: Option<&LuminateManagementSnapshot>) -> (view: Option<&LuminateDaemonPreferences>)
    ensures
        view == match snapshot { Some(s) => Some(&s.0.desired_daemon), None => None::<&LuminateDaemonPreferences> },
{
    match snapshot {
        Some(s) => Some(preferences_ptr(&s.0.desired_daemon)),
        None => None,
    }
}

/// Effective daemon preferences of a snapshot.
pub fn luminate_management_snapshot_effective_daemon(snapshot: Option<&LuminateManagementSnapshot>) -> (view: Option<&LuminateDaemonPreferences>)
    ensures
        view == match snapshot { Some(s) => Some(&s.0.effective_daemon), None => None::<&LuminateDaemonPreferences> },
{
    match snapshot {
        Some(s) => Some(preferences_ptr(&s.0.effective_daemon)),
        None => None,
    }
}

pub fn luminate_management_snapshot_locked_daemon_setting_count(snapshot: Option<&LuminateManagementSnapshot>) -> (count: usize)
    ensures
        count == match snapshot { Some(s) => s.0.locked_daemon_settings@.len(), None => 0 },
{
    match snapshot {
        Some(s) => s.0.locked_daemon_settings.len(),
        None => 0,
    }
}

/// Locked daemon setting name at `index`.
pub fn luminate_management_snapshot_locked_daemon_setting_at(snapshot: Option<&LuminateManagementSnapshot>, index: usize) -> (text: Option<&str>)
    ensures
        opt_str(text) == match snapshot {
            Some(s) => set_text_at(texts_of(s.0.locked_daemon_settings@), index),
            None => None::<Seq<char>>,
        },
{
    match snapshot {
        Some(s) => string_at(&s.0.locked_daemon_settings, index),
        None => None,
    }
}

pub fn luminate_management_snapshot_plugin_count(snapshot: Option<&LuminateManagementSnapshot>) -> (count: usize)
    ensures
        count == match snapshot { Some(s) => s.0.plugins@.len(), None => 0 },
{
    match snapshot {
        Some(s) => s.0.plugins.len(),
        None => 0,
    }
}

/// Borrowed plugin at `index`.
pub fn luminate_management_snapshot_plugin_at(snapshot: Option<&LuminateManagementSnapshot>, index: usize) -> (plugin: Option<&LuminateManagedPlugin>)
    ensures
        match snapshot {
            Some(s) => if index < s.0.plugins@.len() { plugin == Some(&s.0.plugins@[index as int]) } else { plugin is None },
            None => plugin is None,
        },
{
    match snapshot {
        Some(s) => if index < s.0.plugins.len() { Some(&s.0.plugins[index]) } else { None },
        None => None,
    }
}

/// The code of an optional policy field, `u32::MAX` when absent.
pub open spec fn optional_code<T>(value: Option<T>, code: spec_fn(T) -> u32) -> u32 {
    match value {
        Some(v) => code(v),
        None => LUMINATE_INVALID_CODE,
    }
}

pub fn luminate_daemon_preferences_has_default_unsupported_policy(value: Option<&LuminateDaemonPreferences>) -> (has: bool)
    ensures
        has == (value matches Some(p) && p.default_unsupported_policy is Some),
{
    match value {
        Some(p) => p.default_unsupported_policy.is_some(),
        None => false,
    }
}

/// Default unsupported-policy code, or `u32::MAX` when absent or null.
pub fn luminate_daemon_preferences_default_unsupported_policy(value: Option<&LuminateDaemonPreferences>) -> (code: u32)
    ensures
        code == match value {
            Some(p) => optional_code(p.default_unsupported_policy, |v: UnsupportedPolicy| unsupported_code(v)),
            None => LUMINATE_INVALID_CODE,
        },
{
    match value {
        Some(p) => match p.default_unsupported_policy {
            Some(v) => unsupported_to_u32(v),
            None => LUMINATE_INVALID_CODE,
        },
        None => LUMINATE_INVALID_CODE,
    }
}

pub fn luminate_daemon_preferences_has_reconciliation_policy(value: Option<&LuminateDaemonPreferences>) -> (has: bool)
    ensures
        has == (value matches Some(p) && p.reconciliation_policy is Some),
{
    match value {
        Some(p) => p.reconciliation_policy.is_some(),
        None => false,
    }
}

/// Reconciliation-policy code, or `u32::MAX` when absent or null.
pub fn luminate_daemon_preferences_reconciliation_policy(value: Option<&LuminateDaemonPreferences>) -> (code: u32)
    ensures
        code == match value {
            Some(p) => optional_reconciliation_code(p.reconciliation_policy),
            None => LUMINATE_INVALID_CODE,
        },
{
    match value {
        Some(p) => reconciliation_or_invalid(p.reconciliation_policy),
        None => LUMINATE_INVALID_CODE,
    }
}

pub fn luminate_daemon_preferences_has_cct_emulation(value: Option<&LuminateDaemonPreferences>) -> (has: bool)
    ensures
        has == (value matches Some(p) && p.cct_emulation is Some),
{
    match value {
        Some(p) => p.cct_emulation.is_some(),
        None => false,
    }
}

/// CCT-emulation code, or `u32::MAX` when absent or null.
pub fn luminate_daemon_preferences_cct_emulation(value: Option<&LuminateDaemonPreferences>) -> (code: u32)
    ensures
        code == match value {
            Some(p) => optional_code(p.cct_emulation, |v: CctEmulation| cct_emulation_code(v)),
            None => LUMINATE_INVALID_CODE,
        },
{
    match value {
        Some(p) => match p.cct_emulation {
            Some(v) => cct_emulation_to_u32(v),
            None => LUMINATE_INVALID_CODE,
        },
        None => LUMINATE_INVALID_CODE,
    }
}

pub fn luminate_daemon_preferences_has_prefer_shm(value: Option<&LuminateDaemonPreferences>) -> (has: bool)
    ensures
        has == (value matches Some(p) && p.prefer_shm is Some),
{
    match value {
        Some(p) => p.prefer_shm.is_some(),
        None => false,
    }
}

/// Shared-memory preference; false when absent or null.
pub fn luminate_daemon_preferences_prefer_shm(value: Option<&LuminateDaemonPreferences>) -> (prefer: bool)
    ensures
        prefer == (value matches Some(p) && p.prefer_shm == Some(true)),
{
    match value {
        Some(p) => match p.prefer_shm {
            Some(b) => b,
            None => false,
        },
        None => false,
    }
}

pub fn luminate_daemon_preferences_has_prefer_client_shm(value: Option<&LuminateDaemonPreferences>) -> (has: bool)
    ensures
        has == (value matches Some(p) && p.prefer_client_shm is Some),
{
    match value {
        Some(p) => p.prefer_client_shm.is_some(),
        None => false,
    }
}

/// Client shared-memory preference; false when absent or null.
pub fn luminate_daemon_preferences_prefer_client_shm(value: Option<&LuminateDaemonPreferences>) -> (prefer: bool)
    ensures
        prefer == (value matches Some(p) && p.prefer_client_shm == Some(true)),
{
    match value {
        Some(p) => match p.prefer_client_shm {
            Some(b) => b,
            None => false,
        },
        None => false,
    }
}

pub fn luminate_daemon_preferences_device_reconciliation_count(value: Option<&LuminateDaemonPreferences>) -> (count: usize)
    ensures
        count == match value { Some(p) => p.device_reconciliation@.len(), None => 0 },
{
    match value {
        Some(p) => p.device_reconciliation.len(),
        None => 0,
    }
}

/// Borrowed per-device preference at `index`.
pub fn luminate_daemon_preferences_device_reconciliation_at(value: Option<&LuminateDaemonPreferences>, index: usize) -> (device: Option<&LuminateDeviceReconciliationPreference>)
    ensures
        match value {
            Some(p) => if index < p.device_reconciliation@.len() {
                device == Some(&p.device_reconciliation@[index as int])
            } else {
                device is None
            },
            None => device is None,
        },
{
    match value {
        Some(p) => if index < p.device_reconciliation.len() { Some(&p.device_reconciliation[index]) } else { None },
        None => None,
    }
}

pub fn luminate_device_reconciliation_preference_device_id(value: Option<&LuminateDeviceReconciliationPreference>) -> (text: Option<&str>)
    ensures
        opt_str(text) == match value { Some(d) => Some(d.device@), None => None::<Seq<char>> },
{
    match value {
        Some(d) => Some(d.device.as_str()),
        None => None,
    }
}

/// Policy code of a per-device preference, or `u32::MAX` for null.
pub fn luminate_device_reconciliation_preference_policy(value: Option<&LuminateDeviceReconciliationPreference>) -> (code: u32)
    ensures
        code == match value { Some(d) => reconciliation_code(d.policy), None => LUMINATE_INVALID_CODE },
{
    match value {
        Some(d) => reconciliation_to_u32(d.policy),
        None => LUMINATE_INVALID_CODE,
    }
}

} // verus!

verus! {

pub fn luminate_managed_plugin_name(value: Option<&LuminateManagedPlugin>) -> (text: Option<&str>)
    ensures
        opt_str(text) == match value { Some(p) => Some(p.name@), None => None::<Seq<char>> },
{
    match value {
        Some(p) => Some(p.name.as_str()),
        None => None,
    }
}

pub fn luminate_managed_plugin_version(value: Option<&LuminateManagedPlugin>) -> (text: Option<&str>)
    ensures
        opt_str(text) == match value { Some(p) => Some(p.version@), None => None::<Seq<char>> },
{
    match value {
        Some(p) => Some(p.version.as_str()),
        None => None,
    }
}

pub fn luminate_managed_plugin_required(value: Option<&LuminateManagedPlugin>) -> (flag: bool)
    ensures
        flag == (value matches Some(p) && p.required),
{
    match value {
        Some(p) => p.required,
        None => false,
    }
}

pub fn luminate_managed_plugin_effective_enabled(value: Option<&LuminateManagedPlugin>) -> (flag: bool)
    ensures
        flag == (value matches Some(p) && p.effective_enabled),
{
    match value {
        Some(p) => p.effective_enabled,
        None => false,
    }
}

pub fn luminate_managed_plugin_activation_locked(value: Option<&LuminateManagedPlugin>) -> (flag: bool)
    ensures
        flag == (value matches Some(p) && p.activation_locked),
{
    match value {
        Some(p) => p.activation_locked,
        None => false,
    }
}

pub fn luminate_managed_plugin_has_desired_enabled(value: Option<&LuminateManagedPlugin>) -> (has: bool)
    ensures
        has == (value matches Some(p) && p.desired_enabled is Some),
{
    match value {
        Some(p) => p.desired_enabled.is_some(),
        None => false,
    }
}

/// Desired activation; false when absent or null.
pub fn luminate_managed_plugin_desired_enabled(value: Option<&LuminateManagedPlugin>) -> (flag: bool)
    ensures
        flag == (value matches Some(p) && p.desired_enabled == Some(true)),
{
    match value {
        Some(p) => match p.desired_enabled {
            Some(b) => b,
            None => false,
        },
        None => false,
    }
}

pub fn luminate_managed_plugin_has_desired_reconciliation(value: Option<&LuminateManagedPlugin>) -> (has: bool)
    ensures
        has == (value matches Some(p) && p.desired_reconciliation is Some),
{
    match value {
        Some(p) => p.desired_reconciliation.is_some(),
        None => false,
    }
}

pub fn luminate_managed_plugin_desired_reconciliation(value: Option<&LuminateManagedPlugin>) -> (code: u32)
    ensures
        code == match value { Some(p) => optional_reconciliation_code(p.desired_reconciliation), None => LUMINATE_INVALID_CODE },
{
    match value {
        Some(p) => reconciliation_or_invalid(p.desired_reconciliation),
        None => LUMINATE_INVALID_CODE,
    }
}

pub fn luminate_managed_plugin_has_effective_reconciliation(value: Option<&LuminateManagedPlugin>) -> (has: bool)
    ensures
        has == (value matches Some(p) && p.effective_reconciliation is Some),
{
    match value {
        Some(p) => p.effective_reconciliation.is_some(),
        None => false,
    }
}

pub fn luminate_managed_plugin_effective_reconciliation(value: Option<&LuminateManagedPlugin>) -> (code: u32)
    ensures
        code == match value { Some(p) => optional_reconciliation_code(p.effective_reconciliation), None => LUMINATE_INVALID_CODE },
{
    match value {
        Some(p) => reconciliation_or_invalid(p.effective_reconciliation),
        None => LUMINATE_INVALID_CODE,
    }
}

/// The C plugin-runtime codes are fixed: inactive 0, loading 1, loaded 2,
/// failed 3.
pub proof fn lemma_runtime_code_table(state: PluginRuntimeState)
    ensures
        state is Inactive ==> runtime_code(state) == 0,
        state is Loading ==> runtime_code(state) == 1,
        state is Loaded ==> runtime_code(state) == 2,
        state is Failed ==> runtime_code(state) == 3,
{
}

/// The `LUMINATE_PLUGIN_RUNTIME_*` code of a runtime state.
pub open spec fn runtime_code(state: PluginRuntimeState) -> u32 {
    match state {
        PluginRuntimeState::Inactive => 0,
        PluginRuntimeState::Loading => 1,
        PluginRuntimeState::Loaded => 2,
        PluginRuntimeState::Failed { .. } => 3,
    }
}

pub fn luminate_managed_plugin_runtime_kind(value: Option<&LuminateManagedPlugin>) -> (code: u32)
    ensures
        code == match value { Some(p) => runtime_code(p.runtime), None => LUMINATE_INVALID_CODE },
{
    match value {
        Some(p) => match &p.runtime {
            PluginRuntimeState::Inactive => LUMINATE_PLUGIN_RUNTIME_INACTIVE,
            PluginRuntimeState::Loading => LUMINATE_PLUGIN_RUNTIME_LOADING,
            PluginRuntimeState::Loaded => LUMINATE_PLUGIN_RUNTIME_LOADED,
            PluginRuntimeState::Failed { .. } => LUMINATE_PLUGIN_RUNTIME_FAILED,
        },
        None => LUMINATE_INVALID_CODE,
    }
}

/// Failure diagnostic of a failed plugin; absent otherwise.
pub fn luminate_managed_plugin_runtime_diagnostic(value: Option<&LuminateManagedPlugin>) -> (text: Option<&str>)
    ensures
        opt_str(text) == match value {
            Some(p) => match p.runtime {
                PluginRuntimeState::Failed { diagnostic } => Some(diagnostic@),
                _ => None::<Seq<char>>,
            },
            None => None::<Seq<char>>,
        },
{
    match value {
        Some(p) => match &p.runtime {
            PluginRuntimeState::Failed { diagnostic } => Some(diagnostic.as_str()),
            _ => None,
        },
        None => None,
    }
}

pub fn luminate_managed_plugin_schema_count(value: Option<&LuminateManagedPlugin>) -> (count: usize)
    ensures
        count == match value { Some(p) => p.schema@.len(), None => 0 },
{
    match value {
        Some(p) => p.schema.len(),
        None => 0,
    }
}

/// Borrowed setting schema at `index`.
pub fn luminate_managed_plugin_schema_at(value: Option<&LuminateManagedPlugin>, index: usize) -> (schema: Option<&LuminatePluginSettingSchema>)
    ensures
        match value {
            Some(p) => if index < p.schema@.len() { schema == Some(&p.schema@[index as int]) } else { schema is None },
            None => schema is None,
        },
{
    match value {
        Some(p) => if index < p.schema.len() { Some(&p.schema[index]) } else { None },
        None => None,
    }
}

/// The key and value of the `index`-th entry of a reported-settings map, in
/// canonical key order.
pub fn map_entry_at(map: &TextMap<ReportedSettingValue>, index: usize) -> (entry: Option<(&str, &ReportedSettingValue)>)
    ensures
        match entry {
            Some((key, value)) => index < map.spec_len() && key@ == map.spec_entries()[index as int].0
                && *value == map.spec_entries()[index as int].1,
            None => index >= map.spec_len(),
        },
{
    if index < map.len() {
        Some((map.key_at(index), map.value_at(index)))
    } else {
        None
    }
}

/// The key of the `index`-th entry of a map, in canonical order.
pub open spec fn entry_key_at<V>(map: TextMap<V>, index: usize) -> Option<Seq<char>> {
    if index < map.spec_len() { Some(map.spec_entries()[index as int].0) } else { None }
}

pub fn luminate_managed_plugin_desired_setting_count(plugin: Option<&LuminateManagedPlugin>) -> (count: usize)
    ensures
        count == match plugin { Some(p) => p.desired_settings.spec_len(), None => 0 },
{
    match plugin {
        Some(p) => p.desired_settings.len(),
        None => 0,
    }
}

pub fn luminate_managed_plugin_desired_setting_key_at(plugin: Option<&LuminateManagedPlugin>, index: usize) -> (text: Option<&str>)
    ensures
        opt_str(text) == match plugin { Some(p) => entry_key_at(p.desired_settings, index), None => None::<Seq<char>> },
{
    match plugin {
        Some(p) => match map_entry_at(&p.desired_settings, index) {
            Some((key, _)) => Some(key),
            None => None,
        },
        None => None,
    }
}

pub fn luminate_managed_plugin_desired_setting_value_at(plugin: Option<&LuminateManagedPlugin>, index: usize) -> (value: Option<&LuminateReportedSettingValue>)
    ensures
        match plugin {
            Some(p) => if index < p.desired_settings.spec_len() {
                value == Some(&p.desired_settings.spec_entries()[index as int].1)
            } else {
                value is None
            },
            None => value is None,
        },
{
    match plugin {
        Some(p) => match map_entry_at(&p.desired_settings, index) {
            Some((_, v)) => Some(v),
            None => None,
        },
        None => None,
    }
}

pub fn luminate_managed_plugin_effective_setting_count(plugin: Option<&LuminateManagedPlugin>) -> (count: usize)
    ensures
        count == match plugin { Some(p) => p.effective_settings.spec_len(), None => 0 },
{
    match plugin {
        Some(p) => p.effective_settings.len(),
        None => 0,
    }
}

pub fn luminate_managed_plugin_effective_setting_key_at(plugin: Option<&LuminateManagedPlugin>, index: usize) -> (text: Option<&str>)
    ensures
        opt_str(text) == match plugin { Some(p) => entry_key_at(p.effective_settings, index), None => None::<Seq<char>> },
{
    match plugin {
        Some(p) => match map_entry_at(&p.effective_settings, index) {
            Some((key, _)) => Some(key),
            None => None,
        },
        None => None,
    }
}

pub fn luminate_managed_plugin_effective_setting_value_at(plugin: Option<&LuminateManagedPlugin>, index: usize) -> (value: Option<&LuminateReportedSettingValue>)
    ensures
        match plugin {
            Some(p) => if index < p.effective_settings.spec_len() {
                value == Some(&p.effective_settings.spec_entries()[index as int].1)
            } else {
                value is None
            },
            None => value is None,
        },
{
    match plugin {
        Some(p) => match map_entry_at(&p.effective_settings, index) {
            Some((_, v)) => Some(v),
            None => None,
        },
        None => None,
    }
}

pub fn luminate_managed_plugin_locked_setting_count(plugin: Option<&LuminateManagedPlugin>) -> (count: usize)
    ensures
        count == match plugin { Some(p) => p.locked_settings@.len(), None => 0 },
{
    match plugin {
        Some(p) => p.locked_settings.len(),
        None => 0,
    }
}

pub fn luminate_managed_plugin_locked_setting_at(plugin: Option<&LuminateManagedPlugin>, index: usize) -> (text: Option<&str>)
    ensures
        opt_str(text) == match plugin { Some(p) => set_text_at(texts_of(p.locked_settings@), index), None => None::<Seq<char>> },
{
    match plugin {
        Some(p) => string_at(&p.locked_settings, index),
        None => None,
    }
}

} // verus!

verus! {

pub fn luminate_plugin_setting_schema_key(value: Option<&LuminatePluginSettingSchema>) -> (text: Option<&str>)
    ensures
        opt_str(text) == match value { Some(s) => Some(s.key@), None => None::<Seq<char>> },
{
    match value {
        Some(s) => Some(s.key.as_str()),
        None => None,
    }
}

pub fn luminate_plugin_setting_schema_label(value: Option<&LuminatePluginSettingSchema>) -> (text: Option<&str>)
    ensures
        opt_str(text) == match value { Some(s) => Some(s.label@), None => None::<Seq<char>> },
{
    match value {
        Some(s) => Some(s.label.as_str()),
        None => None,
    }
}

pub fn luminate_plugin_setting_schema_description(value: Option<&LuminatePluginSettingSchema>) -> (text: Option<&str>)
    ensures
        opt_str(text) == match value { Some(s) => Some(s.description@), None => None::<Seq<char>> },
{
    match value {
        Some(s) => Some(s.description.as_str()),
        None => None,
    }
}

/// The C declared-setting kind codes are fixed: boolean 0, integer 1,
/// number 2, string 3, enumeration 4, array 5.
pub proof fn lemma_plugin_setting_kind_code_table(kind: PluginSettingKind)
    ensures
        kind is Boolean ==> plugin_setting_kind_code(kind) == 0,
        kind is Integer ==> plugin_setting_kind_code(kind) == 1,
        kind is Number ==> plugin_setting_kind_code(kind) == 2,
        kind is String ==> plugin_setting_kind_code(kind) == 3,
        kind is Enumeration ==> plugin_setting_kind_code(kind) == 4,
        kind is Array ==> plugin_setting_kind_code(kind) == 5,
{
}

/// The `LUMINATE_PLUGIN_SETTING_*` code of a declared setting kind.
pub open spec fn plugin_setting_kind_code(kind: PluginSettingKind) -> u32 {
    match kind {
        PluginSettingKind::Boolean => 0,
        PluginSettingKind::Integer => 1,
        PluginSettingKind::Number => 2,
        PluginSettingKind::String => 3,
        PluginSettingKind::Enumeration => 4,
        PluginSettingKind::Array => 5,
    }
}

pub fn luminate_plugin_setting_schema_kind(value: Option<&LuminatePluginSettingSchema>) -> (code: u32)
    ensures
        code == match value { Some(s) => plugin_setting_kind_code(s.kind), None => LUMINATE_INVALID_CODE },
{
    match value {
        Some(s) => match s.kind {
            PluginSettingKind::Boolean => LUMINATE_PLUGIN_SETTING_BOOLEAN,
            PluginSettingKind::Integer => LUMINATE_PLUGIN_SETTING_INTEGER,
            PluginSettingKind::Number => LUMINATE_PLUGIN_SETTING_NUMBER,
            PluginSettingKind::String => LUMINATE_PLUGIN_SETTING_STRING,
            PluginSettingKind::Enumeration => LUMINATE_PLUGIN_SETTING_ENUMERATION,
            PluginSettingKind::Array => LUMINATE_PLUGIN_SETTING_ARRAY,
        },
        None => LUMINATE_INVALID_CODE,
    }
}

pub fn luminate_plugin_setting_schema_default(value: Option<&LuminatePluginSettingSchema>) -> (reported: Option<&LuminateReportedSettingValue>)
    ensures
        reported == match value { Some(s) => Some(&s.default), None => None::<&LuminateReportedSettingValue> },
{
    match value {
        Some(s) => Some(&s.default),
        None => None,
    }
}

pub fn luminate_plugin_setting_schema_required(value: Option<&LuminatePluginSettingSchema>) -> (flag: bool)
    ensures
        flag == (value matches Some(s) && s.required),
{
    match value {
        Some(s) => s.required,
        None => false,
    }
}

pub fn luminate_plugin_setting_schema_sensitive(value: Option<&LuminatePluginSettingSchema>) -> (flag: bool)
    ensures
        flag == (value matches Some(s) && s.sensitive),
{
    match value {
        Some(s) => s.sensitive,
        None => false,
    }
}

pub fn luminate_plugin_setting_schema_restart_required(value: Option<&LuminatePluginSettingSchema>) -> (flag: bool)
    ensures
        flag == (value matches Some(s) && s.apply_mode == PluginSettingApplyMode::RestartRequired),
{
    match value {
        Some(s) => match s.apply_mode {
            PluginSettingApplyMode::RestartRequired => true,
            PluginSettingApplyMode::Live => false,
        },
        None => false,
    }
}

pub fn luminate_plugin_setting_schema_has_minimum(value: Option<&LuminatePluginSettingSchema>) -> (has: bool)
    ensures
        has == (value matches Some(s) && s.minimum is Some),
{
    match value {
        Some(s) => s.minimum.is_some(),
        None => false,
    }
}

/// Bits of the declared minimum; the bits of 0.0 when absent or null.
pub fn luminate_plugin_setting_schema_minimum(value: Option<&LuminatePluginSettingSchema>) -> (bits: u64)
    ensures
        bits == match value { Some(s) => match s.minimum { Some(m) => m, None => 0 }, None => 0 },
{
    match value {
        Some(s) => match s.minimum {
            Some(m) => m,
            None => 0,
        },
        None => 0,
    }
}

pub fn luminate_plugin_setting_schema_has_maximum(value: Option<&LuminatePluginSettingSchema>) -> (has: bool)
    ensures
        has == (value matches Some(s) && s.maximum is Some),
{
    match value {
        Some(s) => s.maximum.is_some(),
        None => false,
    }
}

/// Bits of the declared maximum; the bits of 0.0 when absent or null.
pub fn luminate_plugin_setting_schema_maximum(value: Option<&LuminatePluginSettingSchema>) -> (bits: u64)
    ensures
        bits == match value { Some(s) => match s.maximum { Some(m) => m, None => 0 }, None => 0 },
{
    match value {
        Some(s) => match s.maximum {
            Some(m) => m,
            None => 0,
        },
        None => 0,
    }
}

pub fn luminate_plugin_setting_schema_constraints(value: Option<&LuminatePluginSettingSchema>) -> (reported: Option<&LuminateReportedSettingValue>)
    ensures
        reported == match value { Some(s) => Some(&s.constraints), None => None::<&LuminateReportedSettingValue> },
{
    match value {
        Some(s) => Some(&s.constraints),
        None => None,
    }
}

/// The C reported-setting codes are fixed: unset 0, visible 1, redacted 2.
pub proof fn lemma_reported_code_table(value: ReportedSettingValue)
    ensures
        value is Unset ==> reported_code(value) == 0,
        value is Visible ==> reported_code(value) == 1,
        value is Redacted ==> reported_code(value) == 2,
{
}

/// The `LUMINATE_REPORTED_SETTING_*` code of a reported value.
pub open spec fn reported_code(value: ReportedSettingValue) -> u32 {
    match value {
        ReportedSettingValue::Unset => 0,
        ReportedSettingValue::Visible(_) => 1,
        ReportedSettingValue::Redacted => 2,
    }
}

pub fn luminate_reported_setting_value_kind(value: Option<&LuminateReportedSettingValue>) -> (code: u32)
    ensures
        code == match value { Some(r) => reported_code(*r), None => LUMINATE_INVALID_CODE },
{
    match value {
        Some(ReportedSettingValue::Unset) => LUMINATE_REPORTED_SETTING_UNSET,
        Some(ReportedSettingValue::Visible(_)) => LUMINATE_REPORTED_SETTING_VISIBLE,
        Some(ReportedSettingValue::Redacted) => LUMINATE_REPORTED_SETTING_REDACTED,
        None => LUMINATE_INVALID_CODE,
    }
}

/// The visible value inside a reported value; absent for unset and
/// redacted values.
pub fn luminate_reported_setting_value_visible(value: Option<&LuminateReportedSettingValue>) -> (visible: Option<&LuminateSettingValueView>)
    ensures
        match value {
            Some(ReportedSettingValue::Visible(v)) => visible == Some(v),
            _ => visible is None,
        },
{
    match value {
        Some(ReportedSettingValue::Visible(v)) => Some(v),
        _ => None,
    }
}

/// Deep-copies a borrowed setting value into an owned one. A null view is
/// `NullPointer` and writes nothing.
pub fn luminate_setting_value_view_clone(view: Option<&LuminateSettingValueView>, out_value: Option<&mut Option<LuminateSettingValue>>) -> (status: LuminateStatus)
    ensures
        view is None ==> status == LuminateStatus::NullPointer && (out_value matches Some(o) ==> *final(o) == *o),
        view matches Some(v) ==> match out_value {
            None => status == LuminateStatus::NullPointer,
            Some(o) => status == LuminateStatus::Success
                && (*final(o) matches Some(c) && setting_model(c.0) == setting_model(*v)),
        },
{
    let v = match view {
        None => return LuminateStatus::NullPointer,
        Some(v) => v,
    };
    match out_value {
        None => LuminateStatus::NullPointer,
        Some(o) => {
            *o = Some(LuminateSettingValue(v.duplicate()));
            LuminateStatus::Success
        },
    }
}

pub fn luminate_setting_value_view_kind(value: Option<&LuminateSettingValueView>) -> (code: u32)
    ensures
        code == match value { Some(v) => setting_kind_code(*v), None => LUMINATE_INVALID_CODE },
{
    match value {
        Some(SettingValue::Boolean(_)) => LUMINATE_MANAGEMENT_SETTING_BOOLEAN,
        Some(SettingValue::Integer(_)) => LUMINATE_MANAGEMENT_SETTING_INTEGER,
        Some(SettingValue::Number(_)) => LUMINATE_MANAGEMENT_SETTING_NUMBER,
        Some(SettingValue::String(_)) => LUMINATE_MANAGEMENT_SETTING_STRING,
        Some(SettingValue::Array(_)) => LUMINATE_MANAGEMENT_SETTING_ARRAY,
        Some(SettingValue::Table(_)) => LUMINATE_MANAGEMENT_SETTING_TABLE,
        None => LUMINATE_INVALID_CODE,
    }
}

/// True only for a boolean `true`.
pub fn luminate_setting_value_view_boolean(value: Option<&LuminateSettingValueView>) -> (flag: bool)
    ensures
        flag == (value matches Some(SettingValue::Boolean(b)) && *b),
{
    match value {
        Some(SettingValue::Boolean(b)) => *b,
        _ => false,
    }
}

/// The integer, or 0 for any other value.
pub fn luminate_setting_value_view_integer(value: Option<&LuminateSettingValueView>) -> (n: i64)
    ensures
        n == match value { Some(SettingValue::Integer(i)) => *i, _ => 0 },
{
    match value {
        Some(SettingValue::Integer(i)) => *i,
        _ => 0,
    }
}

/// The number's bits, or the bits of 0.0 for any other value.
pub fn luminate_setting_value_view_number(value: Option<&LuminateSettingValueView>) -> (bits: u64)
    ensures
        bits == match value { Some(SettingValue::Number(b)) => *b, _ => 0 },
{
    match value {
        Some(SettingValue::Number(b)) => *b,
        _ => 0,
    }
}

/// The string, absent for any other value.
pub fn luminate_setting_value_view_string(value: Option<&LuminateSettingValueView>) -> (text: Option<&str>)
    ensures
        opt_str(text) == match value { Some(SettingValue::String(s)) => Some(s@), _ => None::<Seq<char>> },
{
    match value {
        Some(SettingValue::String(s)) => Some(s.as_str()),
        _ => None,
    }
}

/// Number of array items or table entries; 0 for scalars.
pub fn luminate_setting_value_view_count(value: Option<&LuminateSettingValueView>) -> (count: usize)
    ensures
        count == match value {
            Some(SettingValue::Array(items)) => items@.len(),
            Some(SettingValue::Table(t)) => t.spec_len(),
            _ => 0,
        },
{
    match value {
        Some(SettingValue::Array(items)) => items.len(),
        Some(SettingValue::Table(t)) => t.len(),
        _ => 0,
    }
}

/// Borrowed array item at `index`.
pub fn luminate_setting_value_view_array_at(value: Option<&LuminateSettingValueView>, index: usize) -> (item: Option<&LuminateSettingValueView>)
    ensures
        match value {
            Some(SettingValue::Array(items)) => if index < items@.len() { item == Some(&items@[index as int]) } else { item is None },
            _ => item is None,
        },
{
    match value {
        Some(SettingValue::Array(items)) => if index < items.len() { Some(&items[index]) } else { None },
        _ => None,
    }
}

/// Key of the table entry at `index`, in canonical order.
pub fn luminate_setting_value_view_table_key_at(value: Option<&LuminateSettingValueView>, index: usize) -> (text: Option<&str>)
    ensures
        opt_str(text) == match value { Some(SettingValue::Table(t)) => entry_key_at(*t, index), _ => None::<Seq<char>> },
{
    match value {
        Some(SettingValue::Table(t)) => if index < t.len() { Some(t.key_at(index)) } else { None },
        _ => None,
    }
}

/// Borrowed value of the table entry at `index`, in canonical order.
pub fn luminate_setting_value_view_table_value_at(value: Option<&LuminateSettingValueView>, index: usize) -> (item: Option<&LuminateSettingValueView>)
    ensures
        match value {
            Some(SettingValue::Table(t)) => if index < t.spec_len() {
                item == Some(&t.spec_entries()[index as int].1)
            } else {
                item is None
            },
            _ => item is None,
        },
{
    match value {
        Some(SettingValue::Table(t)) => if index < t.len() { Some(t.value_at(index)) } else { None },
        _ => None,
    }
}

} // verus!

verus! {

pub fn luminate_management_change_set_revision(value: Option<&LuminateManagementChangeSet>) -> (revision: u64)
    ensures
        revision == match value { Some(c) => c.0.revision, None => 0 },
{
    match value {
        Some(c) => c.0.revision,
        None => 0,
    }
}

pub fn luminate_management_change_set_count(value: Option<&LuminateManagementChangeSet>) -> (count: usize)
    ensures
        count == match value { Some(c) => c.0.changes@.len(), None => 0 },
{
    match value {
        Some(c) => c.0.changes.len(),
        None => 0,
    }
}

/// Borrowed change at `index`.
pub fn luminate_management_change_set_at(value: Option<&LuminateManagementChangeSet>, index: usize) -> (change: Option<&LuminateManagementChange>)
    ensures
        match value {
            Some(c) => if index < c.0.changes@.len() { change == Some(&c.0.changes@[index as int]) } else { change is None },
            None => change is None,
        },
{
    match value {
        Some(c) => luminate_management_change_set_view_at(Some(&c.0), index),
        None => None,
    }
}

/// Revision committed by a borrowed event change set.
pub fn luminate_management_change_set_view_revision(value: Option<&LuminateManagementChangeSetView>) -> (revision: u64)
    ensures
        revision == match value { Some(c) => c.revision, None => 0 },
{
    match value {
        Some(c) => c.revision,
        None => 0,
    }
}

/// Number of changes in a borrowed event change set.
pub fn luminate_management_change_set_view_count(value: Option<&LuminateManagementChangeSetView>) -> (count: usize)
    ensures
        count == match value { Some(c) => c.changes@.len(), None => 0 },
{
    match value {
        Some(c) => c.changes.len(),
        None => 0,
    }
}

/// Borrowed change at `index` of a borrowed event change set.
pub fn luminate_management_change_set_view_at(value: Option<&LuminateManagementChangeSetView>, index: usize) -> (change: Option<&LuminateManagementChange>)
    ensures
        match value {
            Some(c) => if index < c.changes@.len() { change == Some(&c.changes@[index as int]) } else { change is None },
            None => change is None,
        },
{
    match value {
        Some(c) => if index < c.changes.len() { Some(&c.changes[index]) } else { None },
        None => None,
    }
}

/// The C management-change codes are fixed: daemon preferences 0, plugin
/// activation 1, plugin reconciliation 2, plugin setting 3.
pub proof fn lemma_change_code_table(change: ManagementChange)
    ensures
        change is DaemonPreferencesChanged ==> change_code(change) == 0,
        change is PluginActivationChanged ==> change_code(change) == 1,
        change is PluginReconciliationChanged ==> change_code(change) == 2,
        change is PluginSettingChanged ==> change_code(change) == 3,
{
}

/// The `LUMINATE_MANAGEMENT_CHANGE_*` code of a change.
pub open spec fn change_code(change: ManagementChange) -> u32 {
    match change {
        ManagementChange::DaemonPreferencesChanged { .. } => 0,
        ManagementChange::PluginActivationChanged { .. } => 1,
        ManagementChange::PluginReconciliationChanged { .. } => 2,
        ManagementChange::PluginSettingChanged { .. } => 3,
    }
}

pub fn luminate_management_change_kind(value: Option<&LuminateManagementChange>) -> (code: u32)
    ensures
        code == match value { Some(c) => change_code(*c), None => LUMINATE_INVALID_CODE },
{
    match value {
        Some(ManagementChange::DaemonPreferencesChanged { .. }) => LUMINATE_MANAGEMENT_CHANGE_DAEMON_PREFERENCES,
        Some(ManagementChange::PluginActivationChanged { .. }) => LUMINATE_MANAGEMENT_CHANGE_PLUGIN_ACTIVATION,
        Some(ManagementChange::PluginReconciliationChanged { .. }) => LUMINATE_MANAGEMENT_CHANGE_PLUGIN_RECONCILIATION,
        Some(ManagementChange::PluginSettingChanged { .. }) => LUMINATE_MANAGEMENT_CHANGE_PLUGIN_SETTING,
        None => LUMINATE_INVALID_CODE,
    }
}

/// The keys a change names: the daemon preference keys, or the one setting
/// key of a setting change.
pub open spec fn change_keys(change: ManagementChange) -> Seq<Seq<char>> {
    match change {
        ManagementChange::DaemonPreferencesChanged { keys } => texts_of(keys@),
        ManagementChange::PluginSettingChanged { key, .. } => seq![key@],
        _ => Seq::empty(),
    }
}

pub fn luminate_management_change_key_count(value: Option<&LuminateManagementChange>) -> (count: usize)
    ensures
        count == match value { Some(c) => change_keys(*c).len(), None => 0 },
{
    match value {
        Some(ManagementChange::DaemonPreferencesChanged { keys }) => keys.len(),
        Some(ManagementChange::PluginSettingChanged { .. }) => 1,
        _ => 0,
    }
}

/// Key at `index` of a change.
pub fn luminate_management_change_key_at(value: Option<&LuminateManagementChange>, index: usize) -> (text: Option<&str>)
    ensures
        opt_str(text) == match value { Some(c) => set_text_at(change_keys(*c), index), None => None::<Seq<char>> },
{
    match value {
        Some(ManagementChange::DaemonPreferencesChanged { keys }) => string_at(keys, index),
        Some(ManagementChange::PluginSettingChanged { key, .. }) => if index == 0 { Some(key.as_str()) } else { None },
        _ => None,
    }
}

/// Plugin a change concerns; absent for daemon-preference changes.
pub fn luminate_management_change_plugin(value: Option<&LuminateManagementChange>) -> (text: Option<&str>)
    ensures
        opt_str(text) == match value {
            Some(ManagementChange::PluginActivationChanged { plugin }) => Some(plugin@),
            Some(ManagementChange::PluginReconciliationChanged { plugin }) => Some(plugin@),
            Some(ManagementChange::PluginSettingChanged { plugin, .. }) => Some(plugin@),
            _ => None::<Seq<char>>,
        },
{
    match value {
        Some(ManagementChange::PluginActivationChanged { plugin }) => Some(plugin.as_str()),
        Some(ManagementChange::PluginReconciliationChanged { plugin }) => Some(plugin.as_str()),
        Some(ManagementChange::PluginSettingChanged { plugin, .. }) => Some(plugin.as_str()),
        _ => None,
    }
}

/// Whether a change is a change of a sensitive setting.
pub fn luminate_management_change_setting_sensitive(value: Option<&LuminateManagementChange>) -> (flag: bool)
    ensures
        flag == (value matches Some(ManagementChange::PluginSettingChanged { sensitive, .. }) && *sensitive),
{
    match value {
        Some(ManagementChange::PluginSettingChanged { sensitive, .. }) => *sensitive,
        _ => false,
    }
}

/// Turns the outcome of a management read into a status and an owned
/// snapshot: the snapshot on success, the error's status otherwise.
pub fn finish_snapshot(result: Result<ManagementSnapshot, Error>, diagnostics: &mut Diagnostics) -> (finished: (LuminateStatus, Option<LuminateManagementSnapshot>))
    ensures
        match result {
            Ok(snapshot) => finished.0 == LuminateStatus::Success && finished.1 == Some(LuminateManagementSnapshot(snapshot))
                && *final(diagnostics) == *old(diagnostics),
            Err(e) => finished.0 == error_status(e) && finished.0 != LuminateStatus::Success && finished.1 is None
                && final(diagnostics).last == Some(LastError::Failure(e)),
        },
{
    match result {
        Ok(snapshot) => (LuminateStatus::Success, Some(LuminateManagementSnapshot(snapshot))),
        Err(e) => (diagnostics.record_error(e), None),
    }
}

/// Turns the outcome of an applied patch into a status and an owned change
/// set: the changes on success, the error's status otherwise.
pub fn finish_changes(result: Result<ManagementChangeSet, Error>, diagnostics: &mut Diagnostics) -> (finished: (LuminateStatus, Option<LuminateManagementChangeSet>))
    ensures
        match result {
            Ok(changes) => finished.0 == LuminateStatus::Success && finished.1 == Some(LuminateManagementChangeSet(changes))
                && *final(diagnostics) == *old(diagnostics),
            Err(e) => finished.0 == error_status(e) && finished.0 != LuminateStatus::Success && finished.1 is None
                && final(diagnostics).last == Some(LastError::Failure(e)),
        },
{
    match result {
        Ok(changes) => (LuminateStatus::Success, Some(LuminateManagementChangeSet(changes))),
        Err(e) => (diagnostics.record_error(e), None),
    }
}

/// Releases a management snapshot. Null is a no-op.
pub fn luminate_management_snapshot_free(value: Option<Box<LuminateManagementSnapshot>>) {
    drop_value(value);
}

/// Releases a management change set. Null is a no-op.
pub fn luminate_management_change_set_free(value: Option<Box<LuminateManagementChangeSet>>) {
    drop_value(value);
}

/// Releases a management patch builder. Null is a no-op.
pub fn luminate_management_patch_builder_free(value: Option<Box<LuminateManagementPatchBuilder>>) {
    drop_value(value);
}

/// Releases an owned setting value. Null is a no-op.
pub fn luminate_setting_value_free(value: Option<Box<LuminateSettingValue>>) {
    drop_value(value);
}

} // verus!

verus! {

/// Sample daemon preferences: rejecting unsupported requests, adopting
/// device state, two per-device overrides, CCT emulation disabled, shared
/// memory preferred for the daemon but not for clients.
pub fn preferences() -> (p: DaemonPreferences)
    ensures
        p.view() == (PreferencesView {
            default_unsupported_policy: Some(UnsupportedPolicy::Reject),
            reconciliation_policy: Some(ReconciliationPolicy::Adopt),
            device_reconciliation: seq![("keyboard"@, ReconciliationPolicy::Restore), ("desk"@, ReconciliationPolicy::Leave)],
            cct_emulation: Some(CctEmulation::Disabled),
            prefer_shm: Some(true),
            prefer_client_shm: Some(false),
        }),
{
    let mut devices: Vec<DeviceReconciliationPreference> = Vec::new();
    devices.push(DeviceReconciliationPreference { device: "keyboard".to_owned(), policy: ReconciliationPolicy::Restore });
    devices.push(DeviceReconciliationPreference { device: "desk".to_owned(), policy: ReconciliationPolicy::Leave });
    let p = DaemonPreferences {
        default_unsupported_policy: Some(UnsupportedPolicy::Reject),
        reconciliation_policy: Some(ReconciliationPolicy::Adopt),
        device_reconciliation: devices,
        cct_emulation: Some(CctEmulation::Disabled),
        prefer_shm: Some(true),
        prefer_client_shm: Some(false),
    };
    assert(p.view().device_reconciliation =~= seq![("keyboard"@, ReconciliationPolicy::Restore), ("desk"@, ReconciliationPolicy::Leave)]);
    p
}

/// Bits of the binary64 number 1.5.
pub const ONE_AND_A_HALF_BITS: u64 = 0x3ff8_0000_0000_0000;
/// Bits of the binary64 number 9.5.
pub const NINE_AND_A_HALF_BITS: u64 = 0x4023_0000_0000_0000;

/// The declared kind of the `index`-th sample schema.
pub open spec fn sample_kind(index: int) -> PluginSettingKind {
    if index == 0 {
        PluginSettingKind::Boolean
    } else if index == 1 {
        PluginSettingKind::Integer
    } else if index == 2 {
        PluginSettingKind::Number
    } else if index == 3 {
        PluginSettingKind::String
    } else if index == 4 {
        PluginSettingKind::Enumeration
    } else {
        PluginSettingKind::Array
    }
}

/// The key, label and description of the `index`-th sample schema.
pub open spec fn sample_texts(index: int) -> (Seq<char>, Seq<char>, Seq<char>) {
    if index == 0 {
        ("setting.0"@, "Setting 0"@, "Description 0"@)
    } else if index == 1 {
        ("setting.1"@, "Setting 1"@, "Description 1"@)
    } else if index == 2 {
        ("setting.2"@, "Setting 2"@, "Description 2"@)
    } else if index == 3 {
        ("setting.3"@, "Setting 3"@, "Description 3"@)
    } else if index == 4 {
        ("setting.4"@, "Setting 4"@, "Description 4"@)
    } else {
        ("setting.5"@, "Setting 5"@, "Description 5"@)
    }
}

/// Whether `schema` is the `index`-th sample schema: the first has no
/// default, the others default to their index; the second is required, the
/// third is sensitive and bounded to [1.5, 9.5], the fifth has redacted
/// constraints and the others an empty array; all need a restart.
pub open spec fn is_sample_schema(schema: PluginSettingSchema, index: int) -> bool {
    &&& schema.key@ == sample_texts(index).0
    &&& schema.label@ == sample_texts(index).1
    &&& schema.description@ == sample_texts(index).2
    &&& schema.kind == sample_kind(index)
    &&& if index == 0 {
        schema.default is Unset
    } else {
        schema.default matches ReportedSettingValue::Visible(SettingValue::Integer(n)) && n == index
    }
    &&& schema.required == (index == 1)
    &&& schema.sensitive == (index == 2)
    &&& schema.apply_mode == PluginSettingApplyMode::RestartRequired
    &&& schema.minimum == (if index == 2 { Some(ONE_AND_A_HALF_BITS) } else { None::<u64> })
    &&& schema.maximum == (if index == 2 { Some(NINE_AND_A_HALF_BITS) } else { None::<u64> })
    &&& if index == 4 {
        schema.constraints is Redacted
    } else {
        schema.constraints matches ReportedSettingValue::Visible(SettingValue::Array(items)) && items@.len() == 0
    }
}

fn sample_schema(index: usize) -> (schema: PluginSettingSchema)
    requires
        index < 6,
    ensures
        is_sample_schema(schema, index as int),
{
    let (kind, key, label, description) = if index == 0 {
        (PluginSettingKind::Boolean, "setting.0", "Setting 0", "Description 0")
    } else if index == 1 {
        (PluginSettingKind::Integer, "setting.1", "Setting 1", "Description 1")
    } else if index == 2 {
        (PluginSettingKind::Number, "setting.2", "Setting 2", "Description 2")
    } else if index == 3 {
        (PluginSettingKind::String, "setting.3", "Setting 3", "Description 3")
    } else if index == 4 {
        (PluginSettingKind::Enumeration, "setting.4", "Setting 4", "Description 4")
    } else {
        (PluginSettingKind::Array, "setting.5", "Setting 5", "Description 5")
    };
    let default = if index == 0 {
        ReportedSettingValue::Unset
    } else {
        ReportedSettingValue::Visible(SettingValue::Integer(index as i64))
    };
    let constraints = if index == 4 {
        ReportedSettingValue::Redacted
    } else {
        ReportedSettingValue::Visible(SettingValue::Array(Vec::new()))
    };
    PluginSettingSchema {
        key: key.to_owned(),
        label: label.to_owned(),
        description: description.to_owned(),
        kind,
        default,
        required: index == 1,
        sensitive: index == 2,
        apply_mode: PluginSettingApplyMode::RestartRequired,
        minimum: if index == 2 { Some(ONE_AND_A_HALF_BITS) } else { None },
        maximum: if index == 2 { Some(NINE_AND_A_HALF_BITS) } else { None },
        constraints,
    }
}

/// The six sample setting schemas, one per declared kind, in kind order.
pub fn schemas() -> (list: Vec<PluginSettingSchema>)
    ensures
        list@.len() == 6,
        forall|i: int| 0 <= i < 6 ==> is_sample_schema(#[trigger] list@[i], i),
{
    let mut list: Vec<PluginSettingSchema> = Vec::new();
    let mut index: usize = 0;
    while index < 6
        invariant
            0 <= index <= 6,
            list@.len() == index,
            forall|i: int| 0 <= i < index ==> is_sample_schema(#[trigger] list@[i], i),
        decreases 6 - index,
    {
        list.push(sample_schema(index));
        index = index + 1;
    }
    list
}

/// A sample managed plugin "example" 1.2.3 in the given runtime state:
/// required, desired disabled, desired policy Leave, effective policy
/// Restore, effectively enabled with its activation locked, carrying the
/// sample schemas, desired settings `a` (unset) and `b` (true), and the
/// redacted, locked effective setting `secret`.
pub fn plugin(runtime: PluginRuntimeState) -> (p: ManagedPlugin)
    ensures
        p.name@ == "example"@,
        p.version@ == "1.2.3"@,
        p.required,
        p.desired_enabled == Some(false),
        p.desired_reconciliation == Some(ReconciliationPolicy::Leave),
        p.effective_reconciliation == Some(ReconciliationPolicy::Restore),
        p.effective_enabled,
        p.runtime == runtime,
        p.activation_locked,
        p.schema@.len() == 6,
        forall|i: int| 0 <= i < 6 ==> is_sample_schema(#[trigger] p.schema@[i], i),
        p.desired_settings.spec_map().dom() == set!["a"@, "b"@],
        p.desired_settings.spec_map()["a"@] is Unset,
        p.desired_settings.spec_map()["b"@] matches ReportedSettingValue::Visible(SettingValue::Boolean(b)) && b,
        p.effective_settings.spec_map().dom() == set!["secret"@],
        p.effective_settings.spec_map()["secret"@] is Redacted,
        texts_of(p.locked_settings@) == seq!["secret"@],
{
    let mut desired: TextMap<ReportedSettingValue> = TextMap::new();
    let _ = desired.insert("a".to_owned(), ReportedSettingValue::Unset);
    let _ = desired.insert("b".to_owned(), ReportedSettingValue::Visible(SettingValue::Boolean(true)));
    let mut effective: TextMap<ReportedSettingValue> = TextMap::new();
    let _ = effective.insert("secret".to_owned(), ReportedSettingValue::Redacted);
    let mut locked: Vec<String> = Vec::new();
    locked.push("secret".to_owned());
    proof {
        reveal_strlit("a");
        reveal_strlit("b");
        assert("a"@[0] != "b"@[0]);
        assert(desired.spec_map().dom() =~= set!["a"@, "b"@]);
        assert(effective.spec_map().dom() =~= set!["secret"@]);
        assert(texts_of(locked@) =~= seq!["secret"@]);
    }
    ManagedPlugin {
        name: "example".to_owned(),
        version: "1.2.3".to_owned(),
        required: true,
        desired_enabled: Some(false),
        desired_reconciliation: Some(ReconciliationPolicy::Leave),
        effective_reconciliation: Some(ReconciliationPolicy::Restore),
        effective_enabled: true,
        runtime,
        activation_locked: true,
        schema: schemas(),
        desired_settings: desired,
        effective_settings: effective,
        locked_settings: locked,
    }
}

} // verus!

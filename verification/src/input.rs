//! Decoding of caller-owned C inputs: NUL-terminated UTF-8 strings and
//! counted arrays of them.
//!
//! A C string argument is modelled as `Option<&[u8]>`: `None` stands for a
//! null pointer, `Some(bytes)` for the bytes before the terminator.

use vstd::prelude::*;
use vstd::utf8::{decode_utf8, valid_utf8};

use crate::status::LuminateStatus;

verus! {

/// The bytes of a C string argument, or `None` for a null pointer.
pub open spec fn arg_bytes(value: Option<&[u8]>) -> Option<Seq<u8>> {
    match value {
        Some(bytes) => Some(bytes@),
        None => None,
    }
}

/// Outcome of reading one required C string: null is rejected with
/// `NullPointer`, malformed UTF-8 with `InvalidUtf8`.
pub open spec fn required_str_outcome(value: Option<Seq<u8>>) -> Result<Seq<char>, LuminateStatus> {
    match value {
        None => Err(LuminateStatus::NullPointer),
        Some(bytes) => if valid_utf8(bytes) {
            Ok(decode_utf8(bytes))
        } else {
            Err(LuminateStatus::InvalidUtf8)
        },
    }
}

/// Outcome of reading every string of an array in order: the first failure
/// wins, otherwise every decoded string.
pub open spec fn all_strs_outcome(items: Seq<Option<Seq<u8>>>) -> Result<Seq<Seq<char>>, LuminateStatus>
    decreases items.len(),
{
    if items.len() == 0 {
        Ok(Seq::empty())
    } else {
        match all_strs_outcome(items.drop_last()) {
            Err(status) => Err(status),
            Ok(prefix) => match required_str_outcome(items.last()) {
                Err(status) => Err(status),
                Ok(text) => Ok(prefix.push(text)),
            },
        }
    }
}

/// The byte views of an array of C string arguments.
pub open spec fn args_bytes(values: Seq<Option<&[u8]>>) -> Seq<Option<Seq<u8>>> {
    values.map_values(|value: Option<&[u8]>| arg_bytes(value))
}

/// Outcome of reading a counted C string array: a zero count never reads the
/// array pointer, a null array with a non-zero count is `NullPointer`.
pub open spec fn str_array_outcome(values: Option<Seq<Option<Seq<u8>>>>, count: nat) -> Result<Seq<Seq<char>>, LuminateStatus> {
    if count == 0 {
        Ok(Seq::empty())
    } else {
        match values {
            None => Err(LuminateStatus::NullPointer),
            Some(items) => all_strs_outcome(items),
        }
    }
}

/// A string or string-array decoding never fails with the success status.
pub proof fn lemma_string_failures_are_failures(value: Option<Seq<u8>>, values: Option<Seq<Option<Seq<u8>>>>, count: nat)
    ensures
        required_str_outcome(value) matches Err(s) ==> s != LuminateStatus::Success,
        str_array_outcome(values, count) matches Err(s) ==> s != LuminateStatus::Success,
{
    if let Some(items) = values {
        lemma_all_strs_failures(items);
    }
}

proof fn lemma_all_strs_failures(items: Seq<Option<Seq<u8>>>)
    ensures
        all_strs_outcome(items) matches Err(s) ==> s != LuminateStatus::Success,
    decreases items.len(),
{
    if items.len() > 0 {
        lemma_all_strs_failures(items.drop_last());
    }
}

/// The views of an optional array argument.
pub open spec fn array_arg(values: Option<&[Option<&[u8]>]>) -> Option<Seq<Option<Seq<u8>>>> {
    match values {
        Some(items) => Some(args_bytes(items@)),
        None => None,
    }
}

/// The character views of owned strings.
pub open spec fn strings_view(values: Seq<String>) -> Seq<Seq<char>> {
    crate::canonical::texts_of(values)
}

/// Interprets bytes as UTF-8 (`std::str::from_utf8`); `None` when they are
/// not well-formed UTF-8.
#[verifier::external_body]
fn utf8_from_bytes<'a>(bytes: &'a [u8]) -> (result: Option<&'a str>)
    ensures
        result is Some <==> valid_utf8(bytes@),
        result matches Some(text) ==> text@ == decode_utf8(bytes@),
{
    std::str::from_utf8(bytes).ok()
}

/// Reads a required NUL-terminated UTF-8 string argument.
pub fn read_required_str<'a>(value: Option<&'a [u8]>) -> (result: Result<&'a str, LuminateStatus>)
    ensures
        match result {
            Ok(text) => required_str_outcome(arg_bytes(value)) == Ok::<Seq<char>, LuminateStatus>(text@),
            Err(status) => required_str_outcome(arg_bytes(value)) == Err::<Seq<char>, LuminateStatus>(status),
        },
{
    match value {
        None => Err(LuminateStatus::NullPointer),
        Some(bytes) => match utf8_from_bytes(bytes) {
            Some(text) => Ok(text),
            None => Err(LuminateStatus::InvalidUtf8),
        },
    }
}

/// Reads a required string argument into an owned string.
pub fn read_owned_str(value: Option<&[u8]>) -> (result: Result<String, LuminateStatus>)
    ensures
        match result {
            Ok(text) => required_str_outcome(arg_bytes(value)) == Ok::<Seq<char>, LuminateStatus>(text@),
            Err(status) => required_str_outcome(arg_bytes(value)) == Err::<Seq<char>, LuminateStatus>(status),
        },
{
    let text = read_required_str(value)?;
    Ok(text.to_owned())
}

/// Reads an optional string argument: null means absent, otherwise the
/// string must be valid UTF-8.
pub fn read_optional_str(value: Option<&[u8]>) -> (result: Result<Option<String>, LuminateStatus>)
    ensures
        value is None ==> result == Ok::<Option<String>, LuminateStatus>(None),
        value is Some ==> match result {
            Ok(text) => text is Some && required_str_outcome(arg_bytes(value)) == Ok::<Seq<char>, LuminateStatus>(text->0@),
            Err(status) => required_str_outcome(arg_bytes(value)) == Err::<Seq<char>, LuminateStatus>(status),
        },
{
    match value {
        None => Ok(None),
        Some(_) => {
            let text = read_owned_str(value)?;
            Ok(Some(text))
        },
    }
}

proof fn lemma_all_strs_error_persists(items: Seq<Option<Seq<u8>>>, k: int, status: LuminateStatus)
    requires
        0 <= k <= items.len(),
        all_strs_outcome(items.take(k)) == Err::<Seq<Seq<char>>, LuminateStatus>(status),
    ensures
        all_strs_outcome(items) == Err::<Seq<Seq<char>>, LuminateStatus>(status),
    decreases items.len() - k,
{
    if k < items.len() {
        assert(items.take(k + 1).drop_last() =~= items.take(k));
        lemma_all_strs_error_persists(items, k + 1, status);
    } else {
        assert(items.take(k) =~= items);
    }
}

/// Reads `count` NUL-terminated UTF-8 strings from a caller-owned array,
/// copying each one. A zero count returns an empty vector without reading
/// `values`.
pub fn read_str_array(values: Option<&[Option<&[u8]>]>, count: usize) -> (result: Result<Vec<String>, LuminateStatus>)
    requires
        values matches Some(items) ==> items@.len() == count,
    ensures
        match result {
            Ok(strings) => str_array_outcome(array_arg(values), count as nat) == Ok::<Seq<Seq<char>>, LuminateStatus>(strings_view(strings@)),
            Err(status) => str_array_outcome(array_arg(values), count as nat) == Err::<Seq<Seq<char>>, LuminateStatus>(status),
        },
{
    let mut strings: Vec<String> = Vec::new();
    if count == 0 {
        assert(strings_view(strings@) =~= Seq::<Seq<char>>::empty());
        return Ok(strings);
    }
    let items = match values {
        None => return Err(LuminateStatus::NullPointer),
        Some(items) => items,
    };
    let ghost all = args_bytes(items@);
    let mut i: usize = 0;
    assert(all.take(0) =~= Seq::<Option<Seq<u8>>>::empty());
    assert(strings_view(strings@) =~= Seq::<Seq<char>>::empty());
    while i < items.len()
        invariant
            all == args_bytes(items@),
            array_arg(values) == Some(all),
            count != 0,
            0 <= i <= items@.len(),
            all_strs_outcome(all.take(i as int)) == Ok::<Seq<Seq<char>>, LuminateStatus>(strings_view(strings@)),
        decreases items@.len() - i,
    {
        assert(all.take(i + 1).drop_last() =~= all.take(i as int));
        assert(all.take(i + 1).last() == arg_bytes(items@[i as int]));
        match read_owned_str(items[i]) {
            Ok(text) => {
                let ghost prev = strings@;
                let ghost text_view = text@;
                strings.push(text);
                assert(strings_view(strings@) =~= strings_view(prev).push(text_view));
            },
            Err(status) => {
                proof {
                    assert(all_strs_outcome(all.take(i + 1)) == Err::<Seq<Seq<char>>, LuminateStatus>(status));
                    lemma_all_strs_error_persists(all, i + 1, status);
                    assert(array_arg(values) == Some(all));
                }
                return Err(status);
            },
        }
        i = i + 1;
    }
    assert(all.take(items@.len() as int) =~= all);
    Ok(strings)
}

} // verus!

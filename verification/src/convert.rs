//! The value converter: from a scripting value to the JSON value that stands
//! for it, where there is one.

use vstd::prelude::*;
use crate::json::{finite_bits, is_finite_bits, JsonModel, JsonValue};
use crate::script::{ScriptModel, ScriptValue};

verus! {

impl ScriptModel {
    /// Whether the value can be written as JSON: no double in it, at any
    /// depth, is an infinity or a NaN, and no part of it is of an unsupported
    /// kind.
    pub open spec fn representable(self) -> bool
        decreases self,
    {
        match self {
            ScriptModel::Float(bits) => finite_bits(bits),
            ScriptModel::Array(items) => forall|i: int|
                0 <= i < items.len() ==> (#[trigger] items[i]).representable(),
            ScriptModel::Object(entries) => forall|i: int|
                0 <= i < entries.len() ==> (#[trigger] entries[i]).1.representable(),
            ScriptModel::Unsupported => false,
            _ => true,
        }
    }

    /// The JSON value that stands for a representable value: `undefined`
    /// becomes `null`, every other scalar stays what it is, an array keeps its
    /// elements in order and an object its keys in order, each element and
    /// entry converted in the same way.
    pub open spec fn to_json(self) -> JsonModel
        decreases self,
    {
        match self {
            ScriptModel::Undefined => JsonModel::Null,
            ScriptModel::Null => JsonModel::Null,
            ScriptModel::Bool(b) => JsonModel::Bool(b),
            ScriptModel::Int(n) => JsonModel::Int(n),
            ScriptModel::Float(bits) => JsonModel::Float(bits),
            ScriptModel::String(s) => JsonModel::String(s),
            ScriptModel::Array(items) => JsonModel::Array(
                Seq::new(
                    items.len(),
                    |i: int|
                        if 0 <= i < items.len() {
                            items[i].to_json()
                        } else {
                            JsonModel::Null
                        },
                ),
            ),
            ScriptModel::Object(entries) => JsonModel::Object(
                Seq::new(
                    entries.len(),
                    |i: int|
                        if 0 <= i < entries.len() {
                            (entries[i].0, entries[i].1.to_json())
                        } else {
                            (Seq::empty(), JsonModel::Null)
                        },
                ),
            ),
            ScriptModel::Unsupported => JsonModel::Null,
        }
    }

    /// What the converter yields: the JSON value of a representable value,
    /// nothing for any other.
    pub open spec fn converted(self) -> Option<JsonModel> {
        if self.representable() {
            Some(self.to_json())
        } else {
            None
        }
    }
}

/// What the converter yields can be written as JSON text: no double in it is
/// an infinity or a NaN.
pub proof fn lemma_converted_is_well_formed(value: ScriptModel)
    requires
        value.representable(),
    ensures
        value.to_json().well_formed(),
    decreases value,
{
    match value {
        ScriptModel::Array(items) => {
            let converted = value.to_json()->Array_0;
            assert forall|i: int| 0 <= i < items.len() implies (
            #[trigger] converted[i]).well_formed() by {
                lemma_converted_is_well_formed(items[i]);
            }
        },
        ScriptModel::Object(entries) => {
            let converted = value.to_json()->Object_0;
            assert forall|i: int| 0 <= i < entries.len() implies (
            #[trigger] converted[i]).1.well_formed() by {
                lemma_converted_is_well_formed(entries[i].1);
            }
        },
        _ => {},
    }
}

/// Conversion keeps objects mappings: where no key occurs twice in a value,
/// none occurs twice in its JSON value.
pub proof fn lemma_conversion_keeps_keys_distinct(value: ScriptModel)
    requires
        value.keys_distinct(),
    ensures
        value.to_json().keys_distinct(),
    decreases value,
{
    match value {
        ScriptModel::Array(items) => {
            let converted = value.to_json()->Array_0;
            assert forall|i: int| 0 <= i < items.len() implies (
            #[trigger] converted[i]).keys_distinct() by {
                lemma_conversion_keeps_keys_distinct(items[i]);
            }
        },
        ScriptModel::Object(entries) => {
            let converted = value.to_json()->Object_0;
            assert forall|i: int| 0 <= i < entries.len() implies (
            #[trigger] converted[i]).1.keys_distinct() by {
                lemma_conversion_keeps_keys_distinct(entries[i].1);
            }
        },
        _ => {},
    }
}

/// Conversion keeps the shape of a value: an array stays an array of the same
/// length, an object stays an object with the same keys in the same order, and
/// a scalar stays a scalar.
pub proof fn lemma_conversion_keeps_shape(value: ScriptModel)
    ensures
        value matches ScriptModel::Array(items) ==> {
            &&& value.to_json() is Array
            &&& value.to_json()->Array_0.len() == items.len()
        },
        value matches ScriptModel::Object(entries) ==> {
            &&& value.to_json() is Object
            &&& value.to_json()->Object_0.len() == entries.len()
            &&& forall|i: int|
                0 <= i < entries.len() ==> (#[trigger] value.to_json()->Object_0[i]).0
                    == entries[i].0
        },
        !(value is Array) ==> !(value.to_json() is Array),
        !(value is Object) ==> !(value.to_json() is Object),
{
}

/// Converts a scripting value to JSON.
///
/// Succeeds exactly on the representable values; an array or an object fails
/// as a whole as soon as one of its parts does.
pub fn convert(value: &ScriptValue) -> (json: Option<JsonValue>)
    ensures
        json is Some <==> value@.representable(),
        json matches Some(j) ==> j@ == value@.to_json() && j@.well_formed(),
        json matches Some(j) ==> (value@.keys_distinct() ==> j@.keys_distinct()),
    decreases value,
{
    proof {
        if value@.representable() {
            lemma_converted_is_well_formed(value@);
        }
        if value@.keys_distinct() {
            lemma_conversion_keeps_keys_distinct(value@);
        }
    }
    match value {
        ScriptValue::Undefined => Some(JsonValue::Null),
        ScriptValue::Null => Some(JsonValue::Null),
        ScriptValue::Bool(b) => Some(JsonValue::Bool(*b)),
        ScriptValue::Int(n) => Some(JsonValue::Int(*n)),
        ScriptValue::Float(bits) => {
            if is_finite_bits(*bits) {
                Some(JsonValue::Float(*bits))
            } else {
                None
            }
        },
        ScriptValue::String(s) => Some(JsonValue::String(s.clone())),
        ScriptValue::Array(items) => convert_array(items),
        ScriptValue::Object(entries) => convert_object(entries),
        ScriptValue::Unsupported => None,
    }
}

/// Converts the elements of an array, in order, to a JSON array.
pub fn convert_array(items: &Vec<ScriptValue>) -> (json: Option<JsonValue>)
    ensures
        json is Some <==> ScriptValue::Array(*items)@.representable(),
        json matches Some(j) ==> j@ == ScriptValue::Array(*items)@.to_json()
            && j@.well_formed(),
        json matches Some(j) ==> (ScriptValue::Array(*items)@.keys_distinct()
            ==> j@.keys_distinct()),
    decreases items,
{
    let ghost whole = ScriptValue::Array(*items)@;
    let mut out: Vec<JsonValue> = Vec::new();
    let mut i: usize = 0;
    while i < items.len()
        invariant
            i <= items.len(),
            out.len() == i,
            whole == ScriptValue::Array(*items)@,
            forall|k: int| 0 <= k < i ==> (#[trigger] items@[k])@.representable(),
            forall|k: int| 0 <= k < i ==> (#[trigger] out@[k])@ == items@[k]@.to_json(),
        decreases items.len() - i,
    {
        match convert(&items[i]) {
            Some(j) => out.push(j),
            None => {
                assert(!whole->Array_0[i as int].representable());
                return None;
            },
        }
        i += 1;
    }
    let json = JsonValue::Array(out);
    assert(json@->Array_0 =~= whole.to_json()->Array_0);
    proof {
        lemma_converted_is_well_formed(whole);
        if whole.keys_distinct() {
            lemma_conversion_keeps_keys_distinct(whole);
        }
    }
    Some(json)
}

/// Converts the entries of an object, in order and under their keys, to a
/// JSON object.
pub fn convert_object(entries: &Vec<(String, ScriptValue)>) -> (json: Option<JsonValue>)
    ensures
        json is Some <==> ScriptValue::Object(*entries)@.representable(),
        json matches Some(j) ==> j@ == ScriptValue::Object(*entries)@.to_json()
            && j@.well_formed(),
        json matches Some(j) ==> (ScriptValue::Object(*entries)@.keys_distinct()
            ==> j@.keys_distinct()),
    decreases entries,
{
    let ghost whole = ScriptValue::Object(*entries)@;
    let mut out: Vec<(String, JsonValue)> = Vec::new();
    let mut i: usize = 0;
    while i < entries.len()
        invariant
            i <= entries.len(),
            out.len() == i,
            whole == ScriptValue::Object(*entries)@,
            forall|k: int| 0 <= k < i ==> (#[trigger] entries@[k]).1@.representable(),
            forall|k: int| 0 <= k < i ==> (#[trigger] out@[k]).0@ == entries@[k].0@,
            forall|k: int| 0 <= k < i ==> (#[trigger] out@[k]).1@ == entries@[k].1@.to_json(),
        decreases entries.len() - i,
    {
        let entry = &entries[i];
        match convert(&entry.1) {
            Some(j) => out.push((entry.0.clone(), j)),
            None => {
                assert(!whole->Object_0[i as int].1.representable());
                return None;
            },
        }
        i += 1;
    }
    let json = JsonValue::Object(out);
    assert(json@->Object_0 =~= whole.to_json()->Object_0);
    proof {
        lemma_converted_is_well_formed(whole);
        if whole.keys_distinct() {
            lemma_conversion_keeps_keys_distinct(whole);
        }
    }
    Some(json)
}

} // verus!

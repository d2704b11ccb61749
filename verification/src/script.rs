//! Scripting values: what one evaluation of a script yields.

use vstd::prelude::*;

verus! {

/// A value produced by the scripting engine.
///
/// A float is held by the bit pattern of its IEEE-754 double, an object by its
/// entries in the order in which they were handed over.
#[derive(Debug, PartialEq, Eq)]
pub enum ScriptValue {
    Undefined,
    Null,
    Bool(bool),
    Int(i64),
    Float(u64),
    String(String),
    Array(Vec<ScriptValue>),
    Object(Vec<(String, ScriptValue)>),
    /// A value of a kind that has no place among the others (a native handle,
    /// a kind added by the engine later).
    Unsupported,
}

/// The mathematical model of a [`ScriptValue`].
pub enum ScriptModel {
    Undefined,
    Null,
    Bool(bool),
    Int(i64),
    Float(u64),
    String(Seq<char>),
    Array(Seq<ScriptModel>),
    Object(Seq<(Seq<char>, ScriptModel)>),
    Unsupported,
}

impl ScriptValue {
    /// The model of the value: every string by its characters, every array and
    /// object by the sequence of the models of its parts.
    ///
    /// A sequence is built from its length and a function of the index. The
    /// function is asked for indices below the length only; the test of the
    /// index in it shows that each part it reaches is a part of `self`.
    pub open spec fn model(&self) -> ScriptModel
        decreases self,
    {
        match self {
            ScriptValue::Undefined => ScriptModel::Undefined,
            ScriptValue::Null => ScriptModel::Null,
            ScriptValue::Bool(b) => ScriptModel::Bool(*b),
            ScriptValue::Int(n) => ScriptModel::Int(*n),
            ScriptValue::Float(bits) => ScriptModel::Float(*bits),
            ScriptValue::String(s) => ScriptModel::String(s@),
            ScriptValue::Array(items) => ScriptModel::Array(
                Seq::new(
                    items@.len(),
                    |i: int|
                        if 0 <= i < items@.len() {
                            items@[i].model()
                        } else {
                            ScriptModel::Null
                        },
                ),
            ),
            ScriptValue::Object(entries) => ScriptModel::Object(
                Seq::new(
                    entries@.len(),
                    |i: int|
                        if 0 <= i < entries@.len() {
                            (entries@[i].0@, entries@[i].1.model())
                        } else {
                            (Seq::empty(), ScriptModel::Null)
                        },
                ),
            ),
            ScriptValue::Unsupported => ScriptModel::Unsupported,
        }
    }
}

impl View for ScriptValue {
    type V = ScriptModel;

    open spec fn view(&self) -> ScriptModel {
        self.model()
    }
}

impl ScriptModel {
    /// An object is a mapping: no key occurs twice among its entries, in the
    /// value itself and in every part of it.
    pub open spec fn keys_distinct(self) -> bool
        decreases self,
    {
        match self {
            ScriptModel::Array(items) => forall|i: int|
                0 <= i < items.len() ==> (#[trigger] items[i]).keys_distinct(),
            ScriptModel::Object(entries) => {
                &&& forall|i: int|
                    0 <= i < entries.len() ==> (#[trigger] entries[i]).1.keys_distinct()
                &&& forall|i: int, j: int|
                    0 <= i < j < entries.len() ==> (#[trigger] entries[i]).0 != (
                    #[trigger] entries[j]).0
            },
            _ => true,
        }
    }
}

} // verus!

//! The function adapter: one SQL call of `js(code)`, from its arguments to its
//! one result.

use vstd::prelude::*;
use crate::convert::{convert_array, convert_object, lemma_converted_is_well_formed};
use crate::engine::{evaluate, holds_zero};
use crate::json::finite_bits;
use crate::script::{ScriptModel, ScriptValue};
use crate::sql::{outcome_model, JsError, SqlArg, SqlModel, SqlResult};

verus! {

/// How the function is made known to the database.
#[derive(Debug, Clone, Copy, PartialEq, Eq)]
pub struct Registration {
    /// The name under which SQL calls the function.
    pub name: &'static str,
    /// The number of arguments that a call takes.
    pub arguments: i32,
    /// Text reaches the function as UTF-8 and in no other encoding.
    pub utf8_only: bool,
    /// The database may take a call with the same argument to give the same
    /// result, and so fold or cache it.
    pub deterministic: bool,
}

/// The registration of `js`: one argument, UTF-8 only, deterministic.
pub fn registration() -> (entry: Registration)
    ensures
        entry.name@ == "js"@,
        entry.arguments == 1,
        entry.utf8_only,
        entry.deterministic,
{
    Registration { name: "js", arguments: 1, utf8_only: true, deterministic: true }
}

/// The script of a call: the text of its first argument, where there is a
/// first argument and it is text.
pub open spec fn script_text(values: Seq<SqlArg>) -> Option<Seq<char>> {
    if values.len() > 0 && values[0] is Text {
        Some(values[0]->Text_0@)
    } else {
        None
    }
}

/// The result that stands for a scripting value.
///
/// `undefined` is the text `undefined`, which sets it apart from `null`, SQL
/// NULL. Every other scalar keeps its kind; a double is handed on as it is,
/// finite or not. An array or an object is its JSON value where it has one and
/// a conversion error where it has none. A value of an unsupported kind is an
/// error of its own.
pub open spec fn encoded(value: ScriptModel) -> Result<SqlModel, JsError> {
    match value {
        ScriptModel::Undefined => Ok(SqlModel::Text("undefined"@)),
        ScriptModel::Null => Ok(SqlModel::Null),
        ScriptModel::Bool(b) => Ok(SqlModel::Bool(b)),
        ScriptModel::Int(n) => Ok(SqlModel::Int(n)),
        ScriptModel::Float(bits) => Ok(SqlModel::Double(bits)),
        ScriptModel::String(s) => Ok(SqlModel::Text(s)),
        ScriptModel::Array(_) | ScriptModel::Object(_) => match value.converted() {
            Some(json) => Ok(SqlModel::Json(json)),
            None => Err(JsError::Conversion),
        },
        ScriptModel::Unsupported => Err(JsError::UnhandledVariant),
    }
}

/// Whether an outcome is one that a call with a script can have: the script
/// did not evaluate, or the outcome is what stands for some scripting value.
pub open spec fn answers_a_script(outcome: Result<SqlModel, JsError>) -> bool {
    outcome == Err::<SqlModel, JsError>(JsError::Evaluation) || exists|value: ScriptModel|
        outcome == #[trigger] encoded(value)
}

/// A scalar that JSON can write: `null`, a boolean, an integer, a finite
/// double, or a string.
pub open spec fn json_scalar(value: ScriptModel) -> bool {
    match value {
        ScriptModel::Null => true,
        ScriptModel::Bool(_) => true,
        ScriptModel::Int(_) => true,
        ScriptModel::String(_) => true,
        ScriptModel::Float(bits) => finite_bits(bits),
        _ => false,
    }
}

/// A scalar that JSON can write is handed to SQL in the SQL type of its own
/// kind, with its own value, and never as JSON text.
pub proof fn lemma_scalars_keep_their_kind(value: ScriptModel)
    requires
        json_scalar(value),
    ensures
        encoded(value) == Ok::<SqlModel, JsError>(
            match value {
                ScriptModel::Bool(b) => SqlModel::Bool(b),
                ScriptModel::Int(n) => SqlModel::Int(n),
                ScriptModel::Float(bits) => SqlModel::Double(bits),
                ScriptModel::String(s) => SqlModel::Text(s),
                _ => SqlModel::Null,
            },
        ),
{
}

/// Two scalars that JSON can write and that differ have results that differ:
/// the result tells which scalar the script gave.
pub proof fn lemma_scalars_stay_apart(first: ScriptModel, second: ScriptModel)
    requires
        json_scalar(first),
        json_scalar(second),
        first != second,
    ensures
        encoded(first) != encoded(second),
{
}

/// `undefined` and `null` have results that differ: the one is text, the other
/// SQL NULL.
pub proof fn lemma_undefined_is_not_null()
    ensures
        encoded(ScriptModel::Undefined) is Ok,
        encoded(ScriptModel::Undefined)->Ok_0 is Text,
        encoded(ScriptModel::Null) == Ok::<SqlModel, JsError>(SqlModel::Null),
        encoded(ScriptModel::Undefined) != encoded(ScriptModel::Null),
{
}

/// The result of a call is decided by the value of its script alone: two
/// values with one model have one outcome.
pub proof fn lemma_same_value_same_outcome(first: ScriptValue, second: ScriptValue)
    requires
        first@ == second@,
    ensures
        encoded(first@) == encoded(second@),
{
}

/// Each failure of a value has its own cause: a conversion error comes from
/// an array or an object that is not representable and from nothing else, an
/// unhandled-variant error from a value of an unsupported kind and from
/// nothing else, and no value gives any other error.
pub proof fn lemma_failures(value: ScriptModel)
    ensures
        encoded(value) == Err::<SqlModel, JsError>(JsError::Conversion) <==> (value is Array
            || value is Object) && !value.representable(),
        encoded(value) == Err::<SqlModel, JsError>(JsError::UnhandledVariant)
            <==> value is Unsupported,
        encoded(value) != Err::<SqlModel, JsError>(JsError::ArgumentShape),
        encoded(value) != Err::<SqlModel, JsError>(JsError::Evaluation),
{
}

/// A JSON result comes from an array or an object, is itself an array or an
/// object, and can be written as JSON text.
pub proof fn lemma_json_results(value: ScriptModel)
    requires
        encoded(value) is Ok,
        encoded(value)->Ok_0 is Json,
    ensures
        value is Array || value is Object,
        value.representable(),
        encoded(value)->Ok_0->Json_0 == value.to_json(),
        value is Array <==> encoded(value)->Ok_0->Json_0 is Array,
        value is Object <==> encoded(value)->Ok_0->Json_0 is Object,
        encoded(value)->Ok_0->Json_0.well_formed(),
{
    lemma_converted_is_well_formed(value);
}

/// Reads the script from the arguments of a call.
///
/// Fails, before anything is evaluated, where the first argument is missing,
/// NULL, or of a class other than text. Arguments after the first are not
/// looked at.
pub fn script_argument<'a>(values: &'a [SqlArg]) -> (script: Result<&'a str, JsError>)
    ensures
        match script {
            Ok(text) => script_text(values@) == Some(text@),
            Err(error) => script_text(values@) is None && error == JsError::ArgumentShape,
        },
{
    if values.len() == 0 {
        return Err(JsError::ArgumentShape);
    }
    match &values[0] {
        SqlArg::Text(text) => Ok(text.as_str()),
        _ => Err(JsError::ArgumentShape),
    }
}

/// Chooses the SQL result for the value of a script.
pub fn dispatch(value: ScriptValue) -> (outcome: Result<SqlResult, JsError>)
    ensures
        outcome_model(outcome) == encoded(value@),
        outcome matches Ok(SqlResult::Json(json)) ==> json@.well_formed(),
        outcome matches Ok(SqlResult::Json(json)) ==> (value@.keys_distinct()
            ==> json@.keys_distinct()),
{
    match value {
        ScriptValue::Undefined => Ok(SqlResult::Text("undefined".to_string())),
        ScriptValue::Null => Ok(SqlResult::Null),
        ScriptValue::Bool(b) => Ok(SqlResult::Bool(b)),
        ScriptValue::Int(n) => Ok(SqlResult::Int(n)),
        ScriptValue::Float(bits) => Ok(SqlResult::Double(bits)),
        ScriptValue::String(s) => Ok(SqlResult::Text(s)),
        ScriptValue::Object(entries) => match convert_object(&entries) {
            Some(json) => Ok(SqlResult::Json(json)),
            None => Err(JsError::Conversion),
        },
        ScriptValue::Array(items) => match convert_array(&items) {
            Some(json) => Ok(SqlResult::Json(json)),
            None => Err(JsError::Conversion),
        },
        ScriptValue::Unsupported => Err(JsError::UnhandledVariant),
    }
}

/// The SQL function `js(code)`: evaluates the text of its first argument as a
/// script, in an engine of its own, and gives the SQL result that stands for
/// the script's value.
///
/// A call with no script fails as such and evaluates nothing, and a script that
/// holds the zero character is refused unread. Of a call with any other
/// script, the engine decides what the script's value is; whatever it is, the
/// result is the one that [`dispatch`] gives for it.
pub fn js(values: &[SqlArg]) -> (outcome: Result<SqlResult, JsError>)
    ensures
        outcome == Err::<SqlResult, JsError>(JsError::ArgumentShape) <==> script_text(values@)
            is None,
        script_text(values@) is Some ==> answers_a_script(outcome_model(outcome)),
        script_text(values@) matches Some(script) && holds_zero(script) ==> outcome == Err::<
            SqlResult,
            JsError,
        >(JsError::Evaluation),
        outcome matches Ok(SqlResult::Json(json)) ==> json@.well_formed()
            && json@.keys_distinct(),
{
    match script_argument(values) {
        Err(error) => Err(error),
        Ok(code) => match evaluate(code) {
            Err(error) => Err(error),
            Ok(value) => {
                proof {
                    lemma_failures(value@);
                    if encoded(value@) is Ok && encoded(value@)->Ok_0 is Json {
                        lemma_json_results(value@);
                    }
                }
                dispatch(value)
            },
        },
    }
}

} // verus!

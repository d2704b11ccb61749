//! The scripting engine: QuickJS, reached through the `quick_js` crate.
//!
//! What stands here is believed, not proved. Nothing is claimed of what a
//! script evaluates to: a script may read the clock or draw random numbers, so
//! the library's own functions are proved for every value that may come back.

use vstd::prelude::*;
use crate::script::ScriptValue;
use crate::sql::JsError;

verus! {

/// `quick_js::Context`: one engine instance, with a runtime of its own.
#[verifier::external_type_specification]
#[verifier::external_body]
pub struct ExContext(quick_js::Context);

/// `quick_js::ContextError`: why an engine instance could not be made.
#[verifier::external_type_specification]
#[verifier::external_body]
pub struct ExContextError(quick_js::ContextError);

/// `quick_js::ExecutionError`: why a script gave no value.
#[verifier::external_type_specification]
#[verifier::external_body]
pub struct ExExecutionError(quick_js::ExecutionError);

/// `quick_js::JsValue`: a value as the engine hands it out.
#[verifier::external_type_specification]
#[verifier::external_body]
pub struct ExJsValue(quick_js::JsValue);

/// Whether a script holds the zero character, which no script that reaches
/// the engine does.
pub open spec fn holds_zero(code: Seq<char>) -> bool {
    code.contains('\0')
}

/// `quick_js::Context::new` makes a fresh engine instance or says why it could
/// not. No claim is made of which.
pub assume_specification[ quick_js::Context::new ]() -> (made: Result<
    quick_js::Context,
    quick_js::ContextError,
>)
;

/// `quick_js::Context::eval` runs a script in the instance and hands back the
/// value of its last expression, or the error that stopped it; where that value
/// is a promise, it waits for the promise and hands back what it settles to.
/// The call returns when the script and the promise come to an end, and not
/// before: the engine sets no limit.
///
/// The script goes to the engine as a C string, which ends at its first zero
/// byte, so `eval` refuses a script that holds one before any of it runs: that
/// is claimed. Of every other script the engine decides, and no claim is made
/// of the value.
pub assume_specification[ quick_js::Context::eval ](
    context: &quick_js::Context,
    code: &str,
) -> (value: Result<quick_js::JsValue, quick_js::ExecutionError>)
    ensures
        holds_zero(code@) ==> value is Err,
;

/// Changes a `quick_js::JsValue` into a [`ScriptValue`] of the same shape, part
/// for part: an integer keeps its value, a float becomes its bit pattern, and a
/// kind that [`ScriptValue`] does not name becomes `Unsupported`. The engine
/// holds the entries of an object in a hash map, so they come in the order
/// in which that map yields them, which is not fixed, and each key comes
/// once: that much is claimed of the result, and no more.
#[verifier::external_body]
fn lift(value: quick_js::JsValue) -> (lifted: ScriptValue)
    ensures
        lifted@.keys_distinct(),
{
    match value {
        quick_js::JsValue::Undefined => ScriptValue::Undefined,
        quick_js::JsValue::Null => ScriptValue::Null,
        quick_js::JsValue::Bool(b) => ScriptValue::Bool(b),
        quick_js::JsValue::Int(n) => ScriptValue::Int(i64::from(n)),
        quick_js::JsValue::Float(x) => ScriptValue::Float(x.to_bits()),
        quick_js::JsValue::String(s) => ScriptValue::String(s),
        quick_js::JsValue::Array(items) => ScriptValue::Array(
            items.into_iter().map(lift).collect(),
        ),
        quick_js::JsValue::Object(entries) => ScriptValue::Object(
            entries.into_iter().map(|(key, part)| (key, lift(part))).collect(),
        ),
        _ => ScriptValue::Unsupported,
    }
}

/// Evaluates a script in an engine instance made for this one call and dropped
/// at its end, so that no state passes from one call to the next.
///
/// A script that holds the zero character is refused unread. Of every other
/// script the engine decides: whatever value comes back is handed on unchanged
/// in shape, its objects mappings, and every failure, of the engine as of the
/// script, is an evaluation error. A script that does not end keeps the call
/// from ending: there is no time limit.
pub fn evaluate(code: &str) -> (outcome: Result<ScriptValue, JsError>)
    ensures
        holds_zero(code@) ==> outcome == Err::<ScriptValue, JsError>(JsError::Evaluation),
        outcome matches Ok(value) ==> value@.keys_distinct(),
        outcome matches Err(error) ==> error == JsError::Evaluation,
{
    match quick_js::Context::new() {
        Ok(context) => match context.eval(code) {
            Ok(value) => Ok(lift(value)),
            Err(_) => Err(JsError::Evaluation),
        },
        Err(_) => Err(JsError::Evaluation),
    }
}

} // verus!

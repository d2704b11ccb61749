//! The SQL side of a call: the arguments that come in, the result that goes
//! out, and the ways in which a call fails.

use vstd::prelude::*;
use crate::json::{JsonModel, JsonValue};

verus! {

/// One argument of a SQL call, by its storage class. A real is held by the
/// bit pattern of its IEEE-754 double.
#[derive(Debug, PartialEq, Eq)]
pub enum SqlArg {
    Null,
    Integer(i64),
    Real(u64),
    Text(String),
    Blob(Vec<u8>),
}

/// The one result of a successful call.
#[derive(Debug, PartialEq, Eq)]
pub enum SqlResult {
    /// SQL NULL.
    Null,
    /// A boolean, which SQL stores as the integer 1 or 0.
    Bool(bool),
    /// An integer.
    Int(i64),
    /// A floating-point number, by the bit pattern of its IEEE-754 double.
    Double(u64),
    /// Plain text.
    Text(String),
    /// A JSON value, to be handed over as its text, marked as JSON.
    Json(JsonValue),
}

/// The mathematical model of a [`SqlResult`].
pub enum SqlModel {
    Null,
    Bool(bool),
    Int(i64),
    Double(u64),
    Text(Seq<char>),
    Json(JsonModel),
}

impl View for SqlResult {
    type V = SqlModel;

    open spec fn view(&self) -> SqlModel {
        match self {
            SqlResult::Null => SqlModel::Null,
            SqlResult::Bool(b) => SqlModel::Bool(*b),
            SqlResult::Int(n) => SqlModel::Int(*n),
            SqlResult::Double(bits) => SqlModel::Double(*bits),
            SqlResult::Text(s) => SqlModel::Text(s@),
            SqlResult::Json(j) => SqlModel::Json(j@),
        }
    }
}

/// Why a call failed. A failed call has no result at all.
#[derive(Debug, Clone, Copy, PartialEq, Eq)]
pub enum JsError {
    /// The first argument is missing, NULL, or not text.
    ArgumentShape,
    /// The script did not evaluate: a syntax error, an exception, or no
    /// engine to run it.
    Evaluation,
    /// The value is an array or an object that cannot be written as JSON.
    Conversion,
    /// The value is of a kind for which no result is defined.
    UnhandledVariant,
}

impl JsError {
    /// The words in which the failure is reported to the caller.
    pub open spec fn message_text(self) -> Seq<char> {
        match self {
            JsError::ArgumentShape => "js() takes the script as its first argument, as text"@,
            JsError::Evaluation => "the script could not be evaluated"@,
            JsError::Conversion => "the value of the script cannot be written as JSON"@,
            JsError::UnhandledVariant => "the value of the script is of no kind that SQL can hold"@,
        }
    }

    /// The words in which the failure is reported to the caller.
    pub fn message(&self) -> (text: &'static str)
        ensures
            text@ == self.message_text(),
    {
        match self {
            JsError::ArgumentShape => "js() takes the script as its first argument, as text",
            JsError::Evaluation => "the script could not be evaluated",
            JsError::Conversion => "the value of the script cannot be written as JSON",
            JsError::UnhandledVariant => "the value of the script is of no kind that SQL can hold",
        }
    }
}

/// The outcome of a call, with the result seen through its model.
pub open spec fn outcome_model(outcome: Result<SqlResult, JsError>) -> Result<SqlModel, JsError> {
    match outcome {
        Ok(result) => Ok(result@),
        Err(error) => Err(error),
    }
}

} // verus!

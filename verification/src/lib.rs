//! The `js(code)` SQL scalar function as a library: the value model of the
//! scripting engine, its conversion to JSON, and the choice of the SQL result.
//!
//! A call runs through [`adapter::js`]: it reads the script from the
//! arguments, has [`engine::evaluate`] run it in an engine of its own, and has
//! [`adapter::dispatch`] choose the [`sql::SqlResult`] that stands for the
//! script's value, with [`convert::convert`] for arrays and objects.

pub mod adapter;
pub mod convert;
pub mod engine;
pub mod json;
pub mod script;
pub mod sql;

pub use crate::adapter::js;

use embedjs::adapter::js;
use embedjs::engine::evaluate;
use embedjs::json::JsonValue;
use embedjs::script::ScriptValue;
use embedjs::sql::{JsError, SqlArg, SqlResult};

fn call(code: &str) -> Result<SqlResult, JsError> {
    js(&[SqlArg::Text(code.to_string())])
}

fn to_serde(json: &JsonValue) -> serde_json::Value {
    match json {
        JsonValue::Null => serde_json::Value::Null,
        JsonValue::Bool(b) => serde_json::Value::Bool(*b),
        JsonValue::Int(n) => serde_json::Value::Number(serde_json::Number::from(*n)),
        JsonValue::Float(bits) => serde_json::Value::Number(
            serde_json::Number::from_f64(f64::from_bits(*bits)).expect("a finite double"),
        ),
        JsonValue::String(s) => serde_json::Value::String(s.clone()),
        JsonValue::Array(items) => serde_json::Value::Array(items.iter().map(to_serde).collect()),
        JsonValue::Object(entries) => {
            let mut map = serde_json::Map::new();
            for (key, part) in entries {
                map.insert(key.clone(), to_serde(part));
            }
            serde_json::Value::Object(map)
        }
    }
}

/// The JSON text of a call whose result is JSON.
fn call_for_json_text(code: &str) -> String {
    match call(code) {
        Ok(SqlResult::Json(json)) => to_serde(&json).to_string(),
        other => panic!("no JSON result: {:?}", other),
    }
}

#[test]
fn sum_of_integers_is_an_integer() {
    assert_eq!(call("1+1"), Ok(SqlResult::Int(2)));
}

#[test]
fn joined_strings_are_text() {
    assert_eq!(call("'a'+'b'"), Ok(SqlResult::Text("ab".to_string())));
}

#[test]
fn comparison_is_a_boolean() {
    assert_eq!(call("2 > 1"), Ok(SqlResult::Bool(true)));
    assert_eq!(call("2 < 1"), Ok(SqlResult::Bool(false)));
}

#[test]
fn fraction_is_a_double() {
    assert_eq!(call("3/2"), Ok(SqlResult::Double(1.5f64.to_bits())));
    assert_eq!(call("0.1+0.2"), Ok(SqlResult::Double((0.1f64 + 0.2f64).to_bits())));
}

#[test]
fn integer_beyond_32_bits_is_a_double() {
    assert_eq!(call("2147483647"), Ok(SqlResult::Int(2147483647)));
    assert_eq!(call("2147483647 + 1"), Ok(SqlResult::Double(2147483648f64.to_bits())));
}

#[test]
fn script_null_is_sql_null() {
    assert_eq!(call("null"), Ok(SqlResult::Null));
}

#[test]
fn script_undefined_is_the_text_undefined() {
    assert_eq!(call("undefined"), Ok(SqlResult::Text("undefined".to_string())));
    assert_ne!(call("undefined"), call("null"));
}

#[test]
fn statement_without_a_value_is_undefined() {
    assert_eq!(call("var x = 1;"), Ok(SqlResult::Text("undefined".to_string())));
}

#[test]
fn object_is_json_text() {
    assert_eq!(call_for_json_text("({a:1,b:[1,2,3]})"), r#"{"a":1,"b":[1,2,3]}"#);
}

#[test]
fn object_holds_each_of_its_entries_once() {
    match call("({a:1,b:[1,2,3]})") {
        Ok(SqlResult::Json(JsonValue::Object(entries))) => {
            assert_eq!(entries.len(), 2);
            let numbers =
                JsonValue::Array(vec![JsonValue::Int(1), JsonValue::Int(2), JsonValue::Int(3)]);
            assert!(entries.contains(&("a".to_string(), JsonValue::Int(1))));
            assert!(entries.contains(&("b".to_string(), numbers)));
        }
        other => panic!("no JSON object: {:?}", other),
    }
}

#[test]
fn key_written_twice_in_a_script_comes_once() {
    assert_eq!(
        call("({a:1, a:2})"),
        Ok(SqlResult::Json(JsonValue::Object(vec![("a".to_string(), JsonValue::Int(2))])))
    );
}

#[test]
fn keys_of_an_evaluated_object_are_distinct() {
    match evaluate("({a:1, b:2, c:{a:1, b:2}, a:3, d:[{x:1, y:2, x:3}]})") {
        Ok(ScriptValue::Object(entries)) => {
            let mut keys: Vec<&str> = entries.iter().map(|(key, _)| key.as_str()).collect();
            keys.sort();
            assert_eq!(keys, vec!["a", "b", "c", "d"]);
            for (key, part) in &entries {
                match (key.as_str(), part) {
                    ("a", part) => assert_eq!(part, &ScriptValue::Int(3)),
                    ("b", part) => assert_eq!(part, &ScriptValue::Int(2)),
                    ("c", ScriptValue::Object(inner)) => {
                        let mut keys: Vec<&str> = inner.iter().map(|(k, _)| k.as_str()).collect();
                        keys.sort();
                        assert_eq!(keys, vec!["a", "b"]);
                    }
                    ("d", ScriptValue::Array(items)) => match &items[..] {
                        [ScriptValue::Object(inner)] => {
                            let mut keys: Vec<&str> =
                                inner.iter().map(|(k, _)| k.as_str()).collect();
                            keys.sort();
                            assert_eq!(keys, vec!["x", "y"]);
                        }
                        other => panic!("not one object: {:?}", other),
                    },
                    other => panic!("an entry out of place: {:?}", other),
                }
            }
        }
        other => panic!("no object: {:?}", other),
    }
}

#[test]
fn array_is_json_text() {
    assert_eq!(call_for_json_text(r#"[1,"x",true,null]"#), r#"[1,"x",true,null]"#);
    assert_eq!(
        call(r#"[1,"x",true,null]"#),
        Ok(SqlResult::Json(JsonValue::Array(vec![
            JsonValue::Int(1),
            JsonValue::String("x".to_string()),
            JsonValue::Bool(true),
            JsonValue::Null,
        ])))
    );
}

#[test]
fn undefined_inside_an_array_is_json_null() {
    assert_eq!(call_for_json_text("[undefined, 1]"), "[null,1]");
}

#[test]
fn division_by_zero_is_an_infinite_double_at_top_level() {
    assert_eq!(call("1/0"), Ok(SqlResult::Double(f64::INFINITY.to_bits())));
    assert_eq!(call("-1/0"), Ok(SqlResult::Double(f64::NEG_INFINITY.to_bits())));
    match call("0/0") {
        Ok(SqlResult::Double(bits)) => assert!(f64::from_bits(bits).is_nan()),
        other => panic!("no double: {:?}", other),
    }
}

#[test]
fn division_by_zero_inside_an_array_is_a_conversion_error() {
    assert_eq!(call("[1/0]"), Err(JsError::Conversion));
    assert_eq!(call("({x: 0/0})"), Err(JsError::Conversion));
    assert_eq!(call("[[1, [2, -1/0]]]"), Err(JsError::Conversion));
}

#[test]
fn function_statement_without_a_name_fails_the_call() {
    assert_eq!(call("function(){}"), Err(JsError::Evaluation));
}

#[test]
fn malformed_script_is_an_evaluation_error() {
    assert_eq!(call("{"), Err(JsError::Evaluation));
    assert_eq!(call("1 +"), Err(JsError::Evaluation));
    assert_eq!(evaluate("{"), Err(JsError::Evaluation));
}

#[test]
fn thrown_exception_is_an_evaluation_error() {
    assert_eq!(call("throw new Error('no')"), Err(JsError::Evaluation));
    assert_eq!(call("nothing_of_that_name"), Err(JsError::Evaluation));
}

#[test]
fn script_with_a_zero_byte_is_an_evaluation_error() {
    assert_eq!(call("1\0+1"), Err(JsError::Evaluation));
}

#[test]
fn script_that_holds_the_zero_character_is_refused_wherever_it_stands() {
    for code in ["\0", "\01+1", "1+1\0", "1+\0\01", "'a\0b'", "// \0\n1"] {
        assert_eq!(evaluate(code), Err(JsError::Evaluation));
        assert_eq!(call(code), Err(JsError::Evaluation));
    }
    assert_eq!(evaluate("1+1"), Ok(ScriptValue::Int(2)));
    assert_eq!(evaluate("'a\\0b'.length"), Ok(ScriptValue::Int(3)));
}

#[test]
fn empty_script_is_undefined() {
    assert_eq!(call(""), Ok(SqlResult::Text("undefined".to_string())));
}

#[test]
fn repeated_calls_give_the_same_result() {
    for code in ["1+1", "'a'+'b'", "null", "undefined", "[1,[2,3]]", "1/0", "{", "[1/0]"] {
        assert_eq!(call(code), call(code));
    }
    assert_eq!(
        call_for_json_text("({b:[1,2], a:{d:1, c:2}})"),
        call_for_json_text("({b:[1,2], a:{d:1, c:2}})")
    );
}

#[test]
fn no_state_passes_from_one_call_to_the_next() {
    assert_eq!(call("var leaked = 41; leaked + 1"), Ok(SqlResult::Int(42)));
    assert_eq!(call("typeof leaked"), Ok(SqlResult::Text("undefined".to_string())));
    assert_eq!(call("leaked"), Err(JsError::Evaluation));
}

#[test]
fn evaluation_hands_out_the_value_in_its_own_shape() {
    assert_eq!(evaluate("1 + 2"), Ok(ScriptValue::Int(3)));
    assert_eq!(evaluate("undefined"), Ok(ScriptValue::Undefined));
    assert_eq!(evaluate("null"), Ok(ScriptValue::Null));
    assert_eq!(evaluate("'s'"), Ok(ScriptValue::String("s".to_string())));
    assert_eq!(evaluate("1.5"), Ok(ScriptValue::Float(1.5f64.to_bits())));
    assert_eq!(
        evaluate("[true, [null], {k: 'v'}]"),
        Ok(ScriptValue::Array(vec![
            ScriptValue::Bool(true),
            ScriptValue::Array(vec![ScriptValue::Null]),
            ScriptValue::Object(vec![("k".to_string(), ScriptValue::String("v".to_string()))]),
        ]))
    );
}

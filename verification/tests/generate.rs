use config_schema_gen::{generate, LogicErrorKind, SchemaError};

fn ok(text: &str) -> String {
    match generate(text) {
        Ok(source) => source,
        Err(e) => panic!("generation failed unexpectedly: {:?}", describe(&e)),
    }
}

fn err(text: &str) -> SchemaError {
    match generate(text) {
        Ok(source) => panic!("generation succeeded unexpectedly: {}", source),
        Err(e) => e,
    }
}

fn describe(e: &SchemaError) -> String {
    match e {
        SchemaError::Parse { path, detail } => format!("parse error at '{}': {}", path, detail),
        SchemaError::Logic { path, reason } => format!("schema error at '{}': {:?}", path, reason),
    }
}

const HEADER: &str = "pub trait TypedConfig {\n    fn get_bool(&self, key: &str) -> Option<bool>;\n    fn get_int(&self, key: &str) -> Option<i64>;\n    fn get_str(&self, key: &str) -> Option<String>;\n";

#[test]
fn integer_default_exact_output() {
    let out = ok(r#"{"type":"object","properties":{"a":{"type":"integer","default":5}}}"#);
    let expected = format!(
        "{}\n    fn a(&self) -> i64 {{\n        self.get_int(\"a\").unwrap_or(5)\n    }}\n}}\n",
        HEADER
    );
    assert_eq!(out, expected);
}

#[test]
fn nested_object_accessors() {
    let out = ok(
        r#"{"type":"object","properties":{"a":{"type":"integer","default":5},"b":{"type":"object","properties":{"c":{"type":"string"}}}}}"#,
    );
    assert!(out.contains("fn a(&self) -> i64 {\n        self.get_int(\"a\").unwrap_or(5)\n    }"));
    assert!(out.contains(
        "fn b_c(&self) -> Option<String> {\n        self.get_str(\"b.c\")\n    }"
    ));
}

#[test]
fn boolean_default_true() {
    let out = ok(r#"{"type":"object","properties":{"flag":{"type":"boolean","default":true}}}"#);
    assert!(out.contains(
        "fn flag(&self) -> bool {\n        self.get_bool(\"flag\").unwrap_or(true)\n    }"
    ));
}

#[test]
fn string_without_default_forwards_lookup() {
    let out = ok(r#"{"type":"object","properties":{"name":{"type":"string"}}}"#);
    assert!(out.contains(
        "fn name(&self) -> Option<String> {\n        self.get_str(\"name\")\n    }"
    ));
}

#[test]
fn string_with_default_quotes_literal() {
    let out = ok(r#"{"type":"object","properties":{"name":{"type":"string","default":"anna"}}}"#);
    assert!(out.contains(
        "fn name(&self) -> String {\n        self.get_str(\"name\").unwrap_or_else(|| \"anna\".to_string())\n    }"
    ));
}

#[test]
fn string_default_is_escaped() {
    let out = ok(
        "{\"type\":\"object\",\"properties\":{\"q\":{\"type\":\"string\",\"default\":\"say \\\"hi\\\"\"}}}",
    );
    assert!(out.contains(".unwrap_or_else(|| \"say \\\"hi\\\"\".to_string())"));
}

#[test]
fn negative_integer_default() {
    let out = ok(r#"{"type":"object","properties":{"n":{"type":"integer","default":-7}}}"#);
    assert!(out.contains("self.get_int(\"n\").unwrap_or(-7)"));
}

#[test]
fn extreme_integer_defaults() {
    let out = ok(
        r#"{"type":"object","properties":{"lo":{"type":"integer","default":-9223372036854775808},"hi":{"type":"integer","default":9223372036854775807}}}"#,
    );
    assert!(out.contains(".unwrap_or(-9223372036854775808)"));
    assert!(out.contains(".unwrap_or(9223372036854775807)"));
}

#[test]
fn type_absent_means_string() {
    let out = ok(r#"{"type":"object","properties":{"s":{}}}"#);
    assert!(out.contains("fn s(&self) -> Option<String> {\n        self.get_str(\"s\")\n    }"));
}

#[test]
fn unsupported_type_yields_stub() {
    let out = ok(r#"{"type":"object","properties":{"x":{"type":"float"}}}"#);
    assert!(out.contains("fn x(&self) {\n        // unsupported schema type: float\n    }"));
}

#[test]
fn declaration_order_is_kept() {
    let out = ok(
        r#"{"type":"object","properties":{"zebra":{"type":"integer"},"apple":{"type":"boolean"},"mango":{"type":"string"}}}"#,
    );
    let z = out.find("fn zebra").unwrap();
    let a = out.find("fn apple").unwrap();
    let m = out.find("fn mango").unwrap();
    assert!(z < a && a < m);
}

#[test]
fn accessor_count_matches_leaf_count() {
    let out = ok(
        r#"{"type":"object","properties":{"a":{"type":"integer"},"b":{"type":"object","properties":{"c":{},"d":{"type":"boolean"}}},"e":{"type":"weird"}}}"#,
    );
    let derived = out.matches("\n    fn ").count() - 3;
    assert_eq!(derived, 4);
}

#[test]
fn generation_is_deterministic() {
    let text =
        r#"{"type":"object","properties":{"a":{"type":"integer","default":5},"b":{"type":"object","properties":{"c":{"type":"string"}}}}}"#;
    let first = ok(text);
    let second = ok(text);
    assert_eq!(first, second);
}

#[test]
fn invalid_document_is_parse_error() {
    let e = err("{not json");
    assert!(matches!(e, SchemaError::Parse { .. }));
}

#[test]
fn empty_document_is_parse_error() {
    let e = err("");
    assert!(matches!(e, SchemaError::Parse { .. }));
}

#[test]
fn non_object_root_is_parse_error() {
    let e = err("5");
    match e {
        SchemaError::Parse { path, .. } => assert_eq!(path, ""),
        other => panic!("wrong error: {}", describe(&other)),
    }
}

#[test]
fn missing_properties_on_root() {
    let e = err(r#"{"type":"object"}"#);
    match e {
        SchemaError::Logic { path, reason } => {
            assert_eq!(path, "");
            assert_eq!(reason, LogicErrorKind::MissingProperties);
        },
        other => panic!("wrong error: {}", describe(&other)),
    }
}

#[test]
fn empty_properties_names_the_node() {
    let e = err(r#"{"type":"object","properties":{"b":{"type":"object","properties":{}}}}"#);
    match e {
        SchemaError::Logic { path, reason } => {
            assert_eq!(path, "b");
            assert_eq!(reason, LogicErrorKind::MissingProperties);
        },
        other => panic!("wrong error: {}", describe(&other)),
    }
}

#[test]
fn properties_on_leaf_is_rejected() {
    let e = err(
        r#"{"type":"object","properties":{"a":{"type":"integer","properties":{"b":{}}}}}"#,
    );
    match e {
        SchemaError::Logic { path, reason } => {
            assert_eq!(path, "a");
            assert_eq!(reason, LogicErrorKind::PropertiesOnLeaf);
        },
        other => panic!("wrong error: {}", describe(&other)),
    }
}

#[test]
fn default_on_object_is_rejected() {
    let e = err(
        r#"{"type":"object","properties":{"a":{"type":"object","default":1,"properties":{"b":{}}}}}"#,
    );
    match e {
        SchemaError::Logic { path, reason } => {
            assert_eq!(path, "a");
            assert_eq!(reason, LogicErrorKind::DefaultOnObject);
        },
        other => panic!("wrong error: {}", describe(&other)),
    }
}

#[test]
fn default_type_mismatch_is_rejected() {
    let e = err(r#"{"type":"object","properties":{"a":{"type":"integer","default":"five"}}}"#);
    match e {
        SchemaError::Logic { path, reason } => {
            assert_eq!(path, "a");
            assert_eq!(reason, LogicErrorKind::DefaultTypeMismatch);
        },
        other => panic!("wrong error: {}", describe(&other)),
    }
}

#[test]
fn fractional_default_does_not_match_integer() {
    let e = err(r#"{"type":"object","properties":{"a":{"type":"integer","default":2.5}}}"#);
    match e {
        SchemaError::Logic { path, reason } => {
            assert_eq!(path, "a");
            assert_eq!(reason, LogicErrorKind::DefaultTypeMismatch);
        },
        other => panic!("wrong error: {}", describe(&other)),
    }
}

#[test]
fn identifier_collision_is_rejected() {
    let e = err(
        r#"{"type":"object","properties":{"a":{"type":"object","properties":{"b":{"type":"integer"}}},"a-b":{"type":"string"}}}"#,
    );
    match e {
        SchemaError::Logic { path, reason } => {
            assert_eq!(path, "a-b");
            assert_eq!(reason, LogicErrorKind::DuplicateIdentifier);
        },
        other => panic!("wrong error: {}", describe(&other)),
    }
}

#[test]
fn dashed_path_is_sanitized() {
    let out = ok(r#"{"type":"object","properties":{"log-level":{"type":"string"}}}"#);
    assert!(out.contains(
        "fn log_level(&self) -> Option<String> {\n        self.get_str(\"log-level\")\n    }"
    ));
}

#[test]
fn no_output_on_failing_schema() {
    let text = r#"{"type":"object","properties":{"ok":{"type":"integer"},"bad":{"type":"object"}}}"#;
    assert!(generate(text).is_err());
}

#[test]
fn header_lists_the_three_primitives() {
    let out = ok(r#"{"type":"object","properties":{"a":{}}}"#);
    assert!(out.starts_with(HEADER));
    assert!(out.ends_with("}\n"));
}

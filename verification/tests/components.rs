use config_schema_gen::emit;
use config_schema_gen::fields::map_leaf;
use config_schema_gen::flatten;
use config_schema_gen::parse_document;
use config_schema_gen::parse_json;
use config_schema_gen::{BaseType, FieldSpec, Json, Scalar, SchemaNode, Target};

fn leaf(typ: &str, default: Option<Scalar>) -> SchemaNode {
    SchemaNode::Leaf { typ: typ.to_string(), default }
}

#[test]
fn parse_json_reads_scalars_and_structure() {
    let t = parse_json("{\"a\": 5, \"b\": [true, \"x\"]}").unwrap();
    match t {
        Json::Obj(entries) => {
            assert_eq!(entries.len(), 2);
            assert_eq!(entries[0].0, "a");
            assert!(matches!(entries[0].1, Json::Int(5)));
            assert_eq!(entries[1].0, "b");
            match &entries[1].1 {
                Json::Arr(items) => {
                    assert!(matches!(items[0], Json::Bool(true)));
                    assert!(matches!(&items[1], Json::Text(s) if s == "x"));
                },
                other => panic!("wrong member shape: {:?}", shape(other)),
            }
        },
        other => panic!("wrong document shape: {:?}", shape(&other)),
    }
}

#[test]
fn parse_json_rejects_malformed_text() {
    assert!(parse_json("{\"a\":").is_err());
}

fn shape(t: &Json) -> &'static str {
    match t {
        Json::Null => "null",
        Json::Bool(_) => "bool",
        Json::Int(_) => "int",
        Json::NumOther(_) => "number",
        Json::Text(_) => "text",
        Json::Arr(_) => "array",
        Json::Obj(_) => "object",
    }
}

#[test]
fn parse_document_builds_the_tree() {
    let root = parse_document(
        "{\"type\":\"object\",\"properties\":{\"a\":{\"type\":\"integer\",\"default\":5}}}",
    )
    .unwrap();
    match root {
        SchemaNode::Obj { entries } => {
            assert_eq!(entries.len(), 1);
            assert_eq!(entries[0].0, "a");
            match &entries[0].1 {
                SchemaNode::Leaf { typ, default } => {
                    assert_eq!(typ, "integer");
                    assert!(matches!(default, Some(Scalar::Int(5))));
                },
                SchemaNode::Obj { .. } => panic!("leaf expected"),
            }
        },
        SchemaNode::Leaf { .. } => panic!("object expected"),
    }
}

#[test]
fn map_leaf_sanitizes_and_renders_the_default() {
    let f = map_leaf(&"integer".to_string(), &Some(Scalar::Int(-42)), &"a.b-c".to_string())
        .unwrap();
    assert_eq!(f.path, "a.b-c");
    assert_eq!(f.identifier, "a_b_c");
    match f.target {
        Target::Defaulted(BaseType::Int, lit) => assert_eq!(lit, "-42"),
        _ => panic!("a defaulted integer target expected"),
    }
}

#[test]
fn flatten_walks_depth_first() {
    let root = SchemaNode::Obj {
        entries: vec![
            ("a".to_string(), leaf("integer", Some(Scalar::Int(5)))),
            (
                "b".to_string(),
                SchemaNode::Obj {
                    entries: vec![("c".to_string(), leaf("string", None))],
                },
            ),
            ("d".to_string(), leaf("boolean", None)),
        ],
    };
    let fs = flatten(&root).unwrap();
    let paths: Vec<&str> = fs.iter().map(|f| f.path.as_str()).collect();
    assert_eq!(paths, vec!["a", "b.c", "d"]);
}

#[test]
fn emit_renders_one_block_per_field() {
    let fs = vec![
        FieldSpec {
            path: "a".to_string(),
            identifier: "a".to_string(),
            target: Target::Defaulted(BaseType::Int, "5".to_string()),
        },
        FieldSpec {
            path: "b.c".to_string(),
            identifier: "b_c".to_string(),
            target: Target::Optional(BaseType::Text),
        },
    ];
    let out = emit(&fs);
    let expected = "pub trait TypedConfig {\n    fn get_bool(&self, key: &str) -> Option<bool>;\n    fn get_int(&self, key: &str) -> Option<i64>;\n    fn get_str(&self, key: &str) -> Option<String>;\n\n    fn a(&self) -> i64 {\n        self.get_int(\"a\").unwrap_or(5)\n    }\n\n    fn b_c(&self) -> Option<String> {\n        self.get_str(\"b.c\")\n    }\n}\n";
    assert_eq!(out, expected);
}

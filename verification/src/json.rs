use vstd::prelude::*;
use vstd::string::*;

verus! {

/// A structured document tree: the in-memory form of the schema text.
/// Object member order follows the document, so later stages see fields
/// in declaration order.
pub enum Json {
    Null,
    Bool(bool),
    Int(i64),
    /// A numeric member that does not fit a 64-bit signed integer,
    /// kept as its textual rendering.
    NumOther(String),
    Text(String),
    Arr(Vec<Json>),
    Obj(Vec<(String, Json)>),
}

/// The first member of `entries` at or after position `i` whose key is `key`.
pub open spec fn spec_lookup_from(entries: Seq<(String, Json)>, key: Seq<char>, i: int) -> Option<
    Json,
>
    decreases entries.len() - i,
{
    if i < 0 || i >= entries.len() {
        None
    } else if entries[i].0@ == key {
        Some(entries[i].1)
    } else {
        spec_lookup_from(entries, key, i + 1)
    }
}

/// The first member of `entries` whose key is `key`.
pub open spec fn spec_lookup(entries: Seq<(String, Json)>, key: Seq<char>) -> Option<Json> {
    spec_lookup_from(entries, key, 0)
}

/// A found member is one of the entries, at or after the start position.
pub proof fn lemma_lookup_element(entries: Seq<(String, Json)>, key: Seq<char>, i: int, v: Json)
    requires
        spec_lookup_from(entries, key, i) == Some(v),
    ensures
        exists|j: int| i <= j < entries.len() && entries[j].1 == v,
    decreases entries.len() - i,
{
    if 0 <= i < entries.len() {
        if entries[i].0@ == key {
            assert(entries[i].1 == v);
        } else {
            lemma_lookup_element(entries, key, i + 1, v);
        }
    }
}

/// Finds the first member of an object with the given key.
pub fn lookup<'a>(entries: &'a Vec<(String, Json)>, key: &String) -> (r: Option<&'a Json>)
    ensures
        match r {
            Some(j) => spec_lookup(entries@, key@) == Some(*j),
            None => spec_lookup(entries@, key@) is None,
        },
{
    let n = entries.len();
    let mut i: usize = 0;
    while i < n
        invariant
            i <= n,
            n == entries@.len(),
            spec_lookup(entries@, key@) == spec_lookup_from(entries@, key@, i as int),
        decreases n - i,
    {
        if entries[i].0.eq(key) {
            return Some(&entries[i].1);
        }
        i = i + 1;
    }
    None
}

/// The document tree that the given text parses to, or nothing when the
/// text is not valid structured data. Parsing is a function of the text
/// alone, so two runs on the same text see the same tree.
pub uninterp spec fn json_doc(s: Seq<char>) -> Option<Json>;

/// Relies on `serde_json::from_str::<serde_json::Value>`: parses the
/// document text, failing exactly on text that is not well-formed; the
/// parsed value is copied one for one into `Json` by `json_of_value`.
/// `json_doc` names the resulting tree. On failure the error's rendering
/// is returned, which names the offending position in the text.
#[verifier::external_body]
pub fn parse_json(s: &str) -> (r: Result<Json, String>)
    ensures
        r matches Ok(j) ==> json_doc(s@) == Some(j),
        r is Err <==> json_doc(s@) is None,
{
    match serde_json::from_str::<serde_json::Value>(s) {
        Ok(v) => Ok(json_of_value(&v)),
        Err(e) => Err(e.to_string()),
    }
}

/// The conversion half of `parse_json`: copies a parsed
/// `serde_json::Value` one for one into `Json`. Object member order is
/// the document's own order. A number that does not fit `i64` keeps only
/// its textual rendering.
#[verifier::external_body]
fn json_of_value(v: &serde_json::Value) -> Json {
    match v {
        serde_json::Value::Null => Json::Null,
        serde_json::Value::Bool(b) => Json::Bool(*b),
        serde_json::Value::Number(n) => match n.as_i64() {
            Some(i) => Json::Int(i),
            None => Json::NumOther(n.to_string()),
        },
        serde_json::Value::String(s) => Json::Text(s.clone()),
        serde_json::Value::Array(a) => Json::Arr(a.iter().map(json_of_value).collect()),
        serde_json::Value::Object(m) => Json::Obj(
            m.iter().map(|p| (p.0.clone(), json_of_value(p.1))).collect(),
        ),
    }
}

/// Relies on `serde_json::Value` being a plain data type; declared so
/// that the conversion above can take it as a parameter.
#[verifier::external_type_specification]
#[verifier::external_body]
pub struct ExValue(serde_json::Value);

} // verus!

use vstd::prelude::*;
use vstd::string::*;

use crate::json::{json_doc, lemma_lookup_element, lookup, parse_json, spec_lookup, Json};

verus! {

/// Why a schema is logically invalid.
#[derive(Clone, Copy, Debug, PartialEq, Eq, Structural)]
pub enum LogicErrorKind {
    /// An `object` node with a missing or empty `properties` mapping.
    MissingProperties,
    /// A non-`object` node that declares `properties`.
    PropertiesOnLeaf,
    /// An `object` node that declares a `default`.
    DefaultOnObject,
    /// A `default` value that does not match the declared type.
    DefaultTypeMismatch,
    /// Two distinct dotted paths that sanitize to the same identifier.
    DuplicateIdentifier,
}

/// An error of a generation run. Each carries the dotted path of the
/// offending node; the path is empty at the document's root.
#[derive(Debug)]
pub enum SchemaError {
    /// The document, or the named node, is not valid structured data.
    Parse { path: String, detail: String },
    /// The document is well-formed but breaks a schema rule.
    Logic { path: String, reason: LogicErrorKind },
}

/// The mathematical value of a `SchemaError`. The parse detail text is
/// descriptive only, so it is not part of the value.
pub enum ErrV {
    Parse { path: Seq<char> },
    Logic { path: Seq<char>, reason: LogicErrorKind },
}

impl View for SchemaError {
    type V = ErrV;

    open spec fn view(&self) -> ErrV {
        match self {
            SchemaError::Parse { path, .. } => ErrV::Parse { path: path@ },
            SchemaError::Logic { path, reason } => ErrV::Logic { path: path@, reason: *reason },
        }
    }
}

/// A scalar default value as found in the document.
pub enum Scalar {
    Bool(bool),
    Int(i64),
    Text(String),
    /// Any other member value (null, a number outside `i64`, an array,
    /// an object): it matches no declared type.
    Other,
}

/// The mathematical value of a `Scalar`.
pub enum ScalarV {
    Bool(bool),
    Int(int),
    Text(Seq<char>),
    Other,
}

impl View for Scalar {
    type V = ScalarV;

    open spec fn view(&self) -> ScalarV {
        match self {
            Scalar::Bool(b) => ScalarV::Bool(*b),
            Scalar::Int(i) => ScalarV::Int(*i as int),
            Scalar::Text(s) => ScalarV::Text(s@),
            Scalar::Other => ScalarV::Other,
        }
    }
}

/// A validated schema node: an object with its properties in declaration
/// order, or a leaf with its declared type and optional default.
pub enum SchemaNode {
    Obj { entries: Vec<(String, SchemaNode)> },
    Leaf { typ: String, default: Option<Scalar> },
}

/// The mathematical value of a `SchemaNode`.
pub enum SchemaV {
    Obj { entries: Seq<(Seq<char>, SchemaV)> },
    Leaf { typ: Seq<char>, default: Option<ScalarV> },
}

pub open spec fn scalar_opt_view(d: Option<Scalar>) -> Option<ScalarV> {
    match d {
        Some(s) => Some(s@),
        None => None,
    }
}

/// The mathematical value of a schema tree.
pub open spec fn sv(s: SchemaNode) -> SchemaV
    decreases s,
{
    match s {
        SchemaNode::Obj { entries } => SchemaV::Obj { entries: sv_entries(entries@, 0) },
        SchemaNode::Leaf { typ, default } => SchemaV::Leaf {
            typ: typ@,
            default: scalar_opt_view(default),
        },
    }
}

pub open spec fn sv_entries(entries: Seq<(String, SchemaNode)>, i: int) -> Seq<
    (Seq<char>, SchemaV),
>
    decreases entries, entries.len() - i,
{
    if i < 0 || i >= entries.len() {
        Seq::empty()
    } else {
        seq![(entries[i].0@, sv(entries[i].1))] + sv_entries(entries, i + 1)
    }
}

pub proof fn lemma_sv_entries(entries: Seq<(String, SchemaNode)>, i: int)
    requires
        0 <= i <= entries.len(),
    ensures
        sv_entries(entries, i).len() == entries.len() - i,
        forall|j: int|
            0 <= j < entries.len() - i ==> #[trigger] sv_entries(entries, i)[j] == (
                entries[i + j].0@,
                sv(entries[i + j].1),
            ),
    decreases entries.len() - i,
{
    if i < entries.len() {
        lemma_sv_entries(entries, i + 1);
    }
}

/// Extends a dotted path with one more segment: the root path is empty,
/// so the first segment carries no leading dot.
pub open spec fn spec_child_path(path: Seq<char>, name: Seq<char>) -> Seq<char> {
    if path.len() == 0 {
        name
    } else {
        path + "."@ + name
    }
}

pub fn child_path(path: &String, name: &String) -> (r: String)
    ensures
        r@ == spec_child_path(path@, name@),
{
    if path.as_str().unicode_len() == 0 {
        name.clone()
    } else {
        let mut r = path.clone();
        r.append(".");
        r.append(name.as_str());
        proof {
            assert(r@ =~= spec_child_path(path@, name@));
        }
        r
    }
}

/// The declared type of a node, read from its members: the `type`
/// member's text, `"string"` when the member is absent, and nothing when
/// the member is present but is not text.
pub open spec fn spec_typ(entries: Seq<(String, Json)>) -> Option<Seq<char>> {
    match spec_lookup(entries, "type"@) {
        None => Some("string"@),
        Some(Json::Text(s)) => Some(s@),
        Some(_) => None,
    }
}

/// The scalar value of a `default` member, when one is present.
pub open spec fn spec_scalar(d: Option<Json>) -> Option<ScalarV> {
    match d {
        None => None,
        Some(Json::Bool(b)) => Some(ScalarV::Bool(b)),
        Some(Json::Int(i)) => Some(ScalarV::Int(i as int)),
        Some(Json::Text(s)) => Some(ScalarV::Text(s@)),
        Some(_) => Some(ScalarV::Other),
    }
}

/// Interprets a document tree as the schema node at `path`.
///
/// A node must be an object of members; its declared type is its `type`
/// member, `string` when absent. An `object` node must carry a non-empty
/// `properties` object and no `default`; any other node must carry no
/// `properties`. Property order is kept. Violations of document shape
/// are parse errors; violations of the schema rules are logic errors,
/// and the first offence in depth-first order wins.
pub open spec fn spec_schema_of(t: Json, path: Seq<char>) -> Result<SchemaV, ErrV>
    decreases t,
    via spec_schema_of_dec
{
    match t {
        Json::Obj(entries) => match spec_typ(entries@) {
            None => Err(ErrV::Parse { path }),
            Some(typ) => {
                let pv = spec_lookup(entries@, "properties"@);
                let dv = spec_lookup(entries@, "default"@);
                if typ == "object"@ {
                    match pv {
                        Some(Json::Obj(pentries)) => if pentries@.len() == 0 {
                            Err(ErrV::Logic { path, reason: LogicErrorKind::MissingProperties })
                        } else if dv is Some {
                            Err(ErrV::Logic { path, reason: LogicErrorKind::DefaultOnObject })
                        } else {
                            match spec_schema_children(pentries@, path, 0) {
                                Ok(cs) => Ok(SchemaV::Obj { entries: cs }),
                                Err(e) => Err(e),
                            }
                        },
                        Some(_) => Err(ErrV::Parse { path }),
                        None => Err(
                            ErrV::Logic { path, reason: LogicErrorKind::MissingProperties },
                        ),
                    }
                } else {
                    if pv is Some {
                        Err(ErrV::Logic { path, reason: LogicErrorKind::PropertiesOnLeaf })
                    } else {
                        Ok(SchemaV::Leaf { typ, default: spec_scalar(dv) })
                    }
                }
            },
        },
        _ => Err(ErrV::Parse { path }),
    }
}

/// The children of an object node, from property position `i` on, each
/// interpreted at its extended path; the first error wins.
pub open spec fn spec_schema_children(
    entries: Seq<(String, Json)>,
    path: Seq<char>,
    i: int,
) -> Result<Seq<(Seq<char>, SchemaV)>, ErrV>
    decreases entries, entries.len() - i,
{
    if i < 0 || i >= entries.len() {
        Ok(Seq::empty())
    } else {
        match spec_schema_of(entries[i].1, spec_child_path(path, entries[i].0@)) {
            Err(e) => Err(e),
            Ok(c) => match spec_schema_children(entries, path, i + 1) {
                Err(e) => Err(e),
                Ok(rest) => Ok(seq![(entries[i].0@, c)] + rest),
            },
        }
    }
}

#[via_fn]
proof fn spec_schema_of_dec(t: Json, path: Seq<char>) {
    match t {
        Json::Obj(entries) => {
            match spec_lookup(entries@, "properties"@) {
                Some(pv) => {
                    lemma_lookup_element(entries@, "properties"@, 0, pv);
                    let j = choose|j: int| 0 <= j < entries@.len() && entries@[j].1 == pv;
                    assert(decreases_to!(t => entries));
                    assert(decreases_to!(entries => entries@));
                    assert(decreases_to!(entries@ => entries@[j]));
                    assert(decreases_to!(entries@[j] => entries@[j].1));
                    match pv {
                        Json::Obj(pentries) => {
                            assert(decreases_to!(entries@[j].1 => pentries));
                            assert(decreases_to!(pentries => pentries@));
                            assert(decreases_to!(t => pentries@));
                        },
                        _ => {},
                    }
                },
                None => {},
            }
        },
        _ => {},
    }
}

pub open spec fn schema_result_view(r: Result<SchemaNode, SchemaError>) -> Result<SchemaV, ErrV> {
    match r {
        Ok(n) => Ok(sv(n)),
        Err(e) => Err(e@),
    }
}

pub open spec fn sn_entries_view(v: Seq<(String, SchemaNode)>) -> Seq<(Seq<char>, SchemaV)> {
    Seq::new(v.len(), |j: int| (v[j].0@, sv(v[j].1)))
}

pub open spec fn children_result_view(r: Result<Vec<(String, SchemaNode)>, SchemaError>) -> Result<
    Seq<(Seq<char>, SchemaV)>,
    ErrV,
> {
    match r {
        Ok(v) => Ok(sn_entries_view(v@)),
        Err(e) => Err(e@),
    }
}

/// Interprets one document node, with all the checks that
/// `spec_schema_of` states.
pub fn schema_of_json(t: &Json, path: &String) -> (r: Result<SchemaNode, SchemaError>)
    ensures
        schema_result_view(r) == spec_schema_of(*t, path@),
    decreases *t,
{
    match t {
        Json::Obj(entries) => {
            let key_type = String::from_str("type");
            let tv = lookup(entries, &key_type);
            let typ: String = match tv {
                None => String::from_str("string"),
                Some(Json::Text(s)) => s.clone(),
                Some(_) => {
                    return Err(
                        SchemaError::Parse {
                            path: path.clone(),
                            detail: String::from_str("the type member is not text"),
                        },
                    );
                },
            };
            let key_props = String::from_str("properties");
            let key_default = String::from_str("default");
            let pv = lookup(entries, &key_props);
            let dv = lookup(entries, &key_default);
            let obj_name = String::from_str("object");
            if typ.eq(&obj_name) {
                match pv {
                    Some(pj) => match pj {
                        Json::Obj(pentries) => {
                            if pentries.len() == 0 {
                                Err(
                                    SchemaError::Logic {
                                        path: path.clone(),
                                        reason: LogicErrorKind::MissingProperties,
                                    },
                                )
                            } else if dv.is_some() {
                                Err(
                                    SchemaError::Logic {
                                        path: path.clone(),
                                        reason: LogicErrorKind::DefaultOnObject,
                                    },
                                )
                            } else {
                                proof {
                                    lemma_lookup_element(entries@, "properties"@, 0, *pj);
                                    let j = choose|j: int|
                                        0 <= j < entries@.len() && entries@[j].1 == *pj;
                                    assert(decreases_to!(*t => *entries));
                                    assert(decreases_to!(*entries => entries@));
                                    assert(decreases_to!(entries@ => entries@[j]));
                                    assert(decreases_to!(entries@[j] => entries@[j].1));
                                    assert(decreases_to!(entries@[j].1 => *pentries));
                                    assert(decreases_to!(*t => *pentries));
                                }
                                match schema_children(pentries, path, 0) {
                                    Ok(cs) => {
                                        proof {
                                            lemma_sv_entries(cs@, 0);
                                            assert(sv_entries(cs@, 0) =~= sn_entries_view(cs@));
                                        }
                                        Ok(SchemaNode::Obj { entries: cs })
                                    },
                                    Err(e) => Err(e),
                                }
                            }
                        },
                        _ => Err(
                            SchemaError::Parse {
                                path: path.clone(),
                                detail: String::from_str("the properties member is not an object"),
                            },
                        ),
                    },
                    None => Err(
                        SchemaError::Logic {
                            path: path.clone(),
                            reason: LogicErrorKind::MissingProperties,
                        },
                    ),
                }
            } else {
                if pv.is_some() {
                    Err(
                        SchemaError::Logic {
                            path: path.clone(),
                            reason: LogicErrorKind::PropertiesOnLeaf,
                        },
                    )
                } else {
                    let default: Option<Scalar> = match dv {
                        None => None,
                        Some(Json::Bool(b)) => Some(Scalar::Bool(*b)),
                        Some(Json::Int(i)) => Some(Scalar::Int(*i)),
                        Some(Json::Text(s)) => Some(Scalar::Text(s.clone())),
                        Some(_) => Some(Scalar::Other),
                    };
                    Ok(SchemaNode::Leaf { typ, default })
                }
            }
        },
        _ => Err(
            SchemaError::Parse {
                path: path.clone(),
                detail: String::from_str("a schema node must be an object"),
            },
        ),
    }
}

/// Interprets the properties of an object node from position `i` on.
fn schema_children(entries: &Vec<(String, Json)>, path: &String, i: usize) -> (r: Result<
    Vec<(String, SchemaNode)>,
    SchemaError,
>)
    requires
        i <= entries@.len(),
    ensures
        children_result_view(r) == spec_schema_children(entries@, path@, i as int),
    decreases *entries, entries@.len() - i,
{
    if i == entries.len() {
        let empty: Vec<(String, SchemaNode)> = Vec::new();
        proof {
            assert(sn_entries_view(empty@) =~= Seq::<(Seq<char>, SchemaV)>::empty());
        }
        Ok(empty)
    } else {
        let name = &entries[i].0;
        let cp = child_path(path, name);
        match schema_of_json(&entries[i].1, &cp) {
            Err(e) => Err(e),
            Ok(c) => {
                match schema_children(entries, path, i + 1) {
                    Err(e) => Err(e),
                    Ok(rest) => {
                        let ghost rest0 = rest@;
                        let mut out = rest;
                        out.insert(0, (name.clone(), c));
                        proof {
                            assert(sn_entries_view(out@) =~= seq![(name@, sv(c))]
                                + sn_entries_view(rest0));
                        }
                        Ok(out)
                    },
                }
            },
        }
    }
}

/// What parsing a whole document yields: a parse error on text that is
/// not valid structured data, else the root node's interpretation.
pub open spec fn spec_parse_outcome(s: Seq<char>) -> Result<SchemaV, ErrV> {
    match json_doc(s) {
        None => Err(ErrV::Parse { path: Seq::empty() }),
        Some(t) => spec_schema_of(t, Seq::empty()),
    }
}

/// Parses the schema document text into a validated schema tree.
pub fn parse_document(text: &str) -> (r: Result<SchemaNode, SchemaError>)
    ensures
        schema_result_view(r) == spec_parse_outcome(text@),
{
    let root_path = String::new();
    match parse_json(text) {
        Err(detail) => Err(SchemaError::Parse { path: String::new(), detail }),
        Ok(t) => schema_of_json(&t, &root_path),
    }
}

} // verus!

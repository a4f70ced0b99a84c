use vstd::prelude::*;

use crate::driver::spec_outcome;
use crate::emit::accessor_text;
use crate::fields::{field_v, spec_map_leaf, BaseType, FieldSpecV, TargetV};
use crate::flatten::{
    spec_dfs, spec_dfs_children, spec_first_dup, spec_first_dup_from, spec_flatten,
};
use crate::json::{spec_lookup, Json};
use crate::schema::{spec_schema_of, spec_typ, ErrV, LogicErrorKind, ScalarV, SchemaV};
use crate::text::{escaped, sanitized};

verus! {

broadcast use vstd::string::group_string_axioms;

/// How many leaves (non-object nodes) a schema holds.
pub open spec fn spec_leaf_count(s: SchemaV) -> nat
    decreases s,
{
    match s {
        SchemaV::Leaf { .. } => 1,
        SchemaV::Obj { entries } => spec_leaf_count_children(entries, 0),
    }
}

pub open spec fn spec_leaf_count_children(entries: Seq<(Seq<char>, SchemaV)>, i: int) -> nat
    decreases entries, entries.len() - i,
{
    if i < 0 || i >= entries.len() {
        0
    } else {
        spec_leaf_count(entries[i].1) + spec_leaf_count_children(entries, i + 1)
    }
}

/// One accessor per leaf: a depth-first walk that succeeds lists exactly
/// as many accessors as the schema has leaves. The emitted source in
/// turn holds exactly one accessor block per listed field, so the number
/// of derived accessors equals the number of leaves.
pub proof fn lemma_accessor_count(s: SchemaV, path: Seq<char>, fs: Seq<FieldSpecV>)
    requires
        spec_dfs(s, path) == Ok::<Seq<FieldSpecV>, ErrV>(fs),
    ensures
        fs.len() == spec_leaf_count(s),
    decreases s,
{
    match s {
        SchemaV::Leaf { .. } => {},
        SchemaV::Obj { entries } => {
            lemma_accessor_count_children(entries, path, 0, fs);
        },
    }
}

pub proof fn lemma_accessor_count_children(
    entries: Seq<(Seq<char>, SchemaV)>,
    path: Seq<char>,
    i: int,
    fs: Seq<FieldSpecV>,
)
    requires
        spec_dfs_children(entries, path, i) == Ok::<Seq<FieldSpecV>, ErrV>(fs),
    ensures
        fs.len() == spec_leaf_count_children(entries, i),
    decreases entries, entries.len() - i,
{
    if 0 <= i < entries.len() {
        match spec_dfs(entries[i].1, crate::schema::spec_child_path(path, entries[i].0)) {
            Ok(head) => {
                match spec_dfs_children(entries, path, i + 1) {
                    Ok(rest) => {
                        lemma_accessor_count(entries[i].1, crate::schema::spec_child_path(path, entries[i].0), head);
                        lemma_accessor_count_children(entries, path, i + 1, rest);
                    },
                    Err(_) => {},
                }
            },
            Err(_) => {},
        }
    }
}

/// The same, at the level of a whole flattening run.
pub proof fn lemma_flatten_count(s: SchemaV, fs: Seq<FieldSpecV>)
    requires
        spec_flatten(s) == Ok::<Seq<FieldSpecV>, ErrV>(fs),
    ensures
        fs.len() == spec_leaf_count(s),
{
    match spec_dfs(s, Seq::empty()) {
        Ok(dfs_out) => {
            lemma_accessor_count(s, Seq::empty(), dfs_out);
        },
        Err(_) => {},
    }
}

/// Determinism: generation is a function of the document text alone, so
/// two runs on byte-identical input yield byte-identical output.
pub proof fn lemma_deterministic(s1: Seq<char>, s2: Seq<char>)
    requires
        s1 == s2,
    ensures
        spec_outcome(s1) == spec_outcome(s2),
{
}

/// A `boolean` leaf with default `true` maps to a required boolean
/// accessor that substitutes `true` when the primitive lookup is absent,
/// whatever its path.
pub proof fn lemma_bool_default_accessor(path: Seq<char>)
    ensures
        spec_map_leaf("boolean"@, Some(ScalarV::Bool(true)), path) == Ok::<FieldSpecV, ErrV>(
            field_v(path, TargetV::Defaulted(BaseType::Bool, "true"@)),
        ),
        accessor_text(field_v(path, TargetV::Defaulted(BaseType::Bool, "true"@))) == "\n    fn "@
            + sanitized(path) + "(&self) -> bool {\n        self.get_bool(\""@ + escaped(path)
            + "\").unwrap_or(true)\n    }\n"@,
{
    reveal_strlit("string");
    reveal_strlit("boolean");
    reveal_strlit("true");
    assert("boolean"@.len() == 7);
    assert("string"@.len() == 6);
    proof_accessor_text_bool(path);
}

/// A `string` leaf with no default maps to an optional text accessor
/// that forwards the primitive lookup for its full dotted path.
pub proof fn lemma_string_optional_accessor(path: Seq<char>)
    ensures
        spec_map_leaf("string"@, None, path) == Ok::<FieldSpecV, ErrV>(
            field_v(path, TargetV::Optional(BaseType::Text)),
        ),
        accessor_text(field_v(path, TargetV::Optional(BaseType::Text))) == "\n    fn "@
            + sanitized(path) + "(&self) -> Option<String> {\n        self.get_str(\""@ + escaped(
            path,
        ) + "\")\n    }\n"@,
{
    reveal_strlit("string");
    proof_accessor_text_string(path);
}

/// An object node whose `properties` member is missing, or an empty
/// object, is a logic error naming that node's path.
pub proof fn lemma_missing_properties(t: Json, path: Seq<char>)
    requires
        t is Obj,
        spec_typ(t->Obj_0@) == Some("object"@),
        spec_lookup(t->Obj_0@, "properties"@) is None || (spec_lookup(t->Obj_0@, "properties"@)
            matches Some(Json::Obj(p)) && p@.len() == 0),
    ensures
        spec_schema_of(t, path) == Err::<SchemaV, ErrV>(
            ErrV::Logic { path, reason: LogicErrorKind::MissingProperties },
        ),
{
}

/// Two leaves whose distinct dotted paths sanitize to the same
/// identifier make the whole flattening fail with a collision error:
/// no accessor list with a repeated or overwritten name is returned.
pub proof fn lemma_collision_rejected(s: SchemaV, fs: Seq<FieldSpecV>, i: int, j: int)
    requires
        spec_dfs(s, Seq::empty()) == Ok::<Seq<FieldSpecV>, ErrV>(fs),
        0 <= i < j < fs.len(),
        fs[i].path != fs[j].path,
        sanitized(fs[i].path) == sanitized(fs[j].path),
    ensures
        spec_flatten(s) matches Err(e) && e matches ErrV::Logic {
            path: _,
            reason: LogicErrorKind::DuplicateIdentifier,
        },
{
    lemma_dfs_identifiers(s, Seq::empty(), fs);
    assert(fs[i].identifier == fs[j].identifier);
    lemma_dup_found(fs, i, j, 0);
    let dup = spec_first_dup(fs);
    assert(dup is Some);
}

/// Every field a walk lists carries the sanitized form of its own path
/// as its identifier.
pub proof fn lemma_dfs_identifiers(s: SchemaV, path: Seq<char>, fs: Seq<FieldSpecV>)
    requires
        spec_dfs(s, path) == Ok::<Seq<FieldSpecV>, ErrV>(fs),
    ensures
        forall|k: int| 0 <= k < fs.len() ==> #[trigger] fs[k].identifier == sanitized(fs[k].path),
    decreases s,
{
    match s {
        SchemaV::Leaf { .. } => {},
        SchemaV::Obj { entries } => {
            lemma_dfs_identifiers_children(entries, path, 0, fs);
        },
    }
}

pub proof fn lemma_dfs_identifiers_children(
    entries: Seq<(Seq<char>, SchemaV)>,
    path: Seq<char>,
    i: int,
    fs: Seq<FieldSpecV>,
)
    requires
        spec_dfs_children(entries, path, i) == Ok::<Seq<FieldSpecV>, ErrV>(fs),
    ensures
        forall|k: int| 0 <= k < fs.len() ==> #[trigger] fs[k].identifier == sanitized(fs[k].path),
    decreases entries, entries.len() - i,
{
    if 0 <= i < entries.len() {
        match spec_dfs(entries[i].1, crate::schema::spec_child_path(path, entries[i].0)) {
            Ok(head) => {
                match spec_dfs_children(entries, path, i + 1) {
                    Ok(rest) => {
                        lemma_dfs_identifiers(entries[i].1, crate::schema::spec_child_path(path, entries[i].0), head);
                        lemma_dfs_identifiers_children(entries, path, i + 1, rest);
                        assert(fs == head + rest);
                    },
                    Err(_) => {},
                }
            },
            Err(_) => {},
        }
    }
}

/// When some later entry repeats an earlier identifier, the scan finds a
/// first repetition.
pub proof fn lemma_dup_found(fs: Seq<FieldSpecV>, i: int, j: int, k: int)
    requires
        0 <= i < j < fs.len(),
        fs[i].identifier == fs[j].identifier,
        0 <= k <= j,
    ensures
        spec_first_dup_from(fs, k) is Some,
    decreases j - k,
{
    if k == j {
        assert(0 <= i < j && fs[i].identifier == fs[j].identifier);
    } else {
        if exists|m: int| 0 <= m < k && fs[m].identifier == fs[k].identifier {
        } else {
            lemma_dup_found(fs, i, j, k + 1);
        }
    }
}

#[verifier::rlimit(100)]
proof fn proof_accessor_text_bool(path: Seq<char>)
    ensures
        accessor_text(field_v(path, TargetV::Defaulted(BaseType::Bool, "true"@))) == "\n    fn "@
            + sanitized(path) + "(&self) -> bool {\n        self.get_bool(\""@ + escaped(path)
            + "\").unwrap_or(true)\n    }\n"@,
{
    reveal_strlit("\n    fn ");
    reveal_strlit("(&self) -> ");
    reveal_strlit("bool");
    reveal_strlit(" {\n        self.");
    reveal_strlit("get_bool");
    reveal_strlit("(\"");
    reveal_strlit("\")");
    reveal_strlit(".unwrap_or(");
    reveal_strlit("true");
    reveal_strlit(")");
    reveal_strlit("\n    }\n");
    reveal_strlit("(&self) -> bool {\n        self.get_bool(\"");
    reveal_strlit("\").unwrap_or(true)\n    }\n");
    assert(("(&self) -> "@ + "bool"@ + " {\n        self."@ + "get_bool"@ + "(\""@)
        =~= "(&self) -> bool {\n        self.get_bool(\""@);
    assert(("\")"@ + ".unwrap_or("@ + "true"@ + ")"@ + "\n    }\n"@)
        =~= "\").unwrap_or(true)\n    }\n"@);
    assert(accessor_text(field_v(path, TargetV::Defaulted(BaseType::Bool, "true"@))) =~= "\n    fn "@
        + sanitized(path) + "(&self) -> bool {\n        self.get_bool(\""@ + escaped(path)
        + "\").unwrap_or(true)\n    }\n"@);
}

#[verifier::rlimit(100)]
proof fn proof_accessor_text_string(path: Seq<char>)
    ensures
        accessor_text(field_v(path, TargetV::Optional(BaseType::Text))) == "\n    fn "@
            + sanitized(path) + "(&self) -> Option<String> {\n        self.get_str(\""@
            + escaped(path) + "\")\n    }\n"@,
{
    reveal_strlit("\n    fn ");
    reveal_strlit("(&self) -> ");
    reveal_strlit("Option<String>");
    reveal_strlit(" {\n        self.");
    reveal_strlit("get_str");
    reveal_strlit("(\"");
    reveal_strlit("\")\n    }\n");
    reveal_strlit("(&self) -> Option<String> {\n        self.get_str(\"");
    reveal_strlit("\")\n    }\n");
    assert(("(&self) -> "@ + "Option<String>"@ + " {\n        self."@ + "get_str"@ + "(\""@)
        =~= "(&self) -> Option<String> {\n        self.get_str(\""@);
    assert(accessor_text(field_v(path, TargetV::Optional(BaseType::Text))) =~= "\n    fn "@
        + sanitized(path) + "(&self) -> Option<String> {\n        self.get_str(\""@ + escaped(path)
        + "\")\n    }\n"@);
}

/// The structural invariant of a schema: every object node has at least
/// one property, and no leaf carries the declared type `object`.
pub open spec fn schema_wf(s: SchemaV) -> bool
    decreases s,
{
    match s {
        SchemaV::Leaf { typ, .. } => typ != "object"@,
        SchemaV::Obj { entries } => entries.len() > 0 && (forall|j: int|
            0 <= j < entries.len() ==> schema_wf(#[trigger] entries[j].1)),
    }
}

/// Parsing establishes the invariant: a document tree that interprets
/// successfully always yields a well-formed schema.
pub proof fn lemma_parse_well_formed(t: Json, path: Seq<char>, s: SchemaV)
    requires
        spec_schema_of(t, path) == Ok::<SchemaV, ErrV>(s),
    ensures
        schema_wf(s),
    decreases t,
{
    match t {
        Json::Obj(entries) => {
            match spec_lookup(entries@, "properties"@) {
                Some(pv) => match pv {
                    Json::Obj(pentries) => {
                        if s is Obj {
                            crate::json::lemma_lookup_element(entries@, "properties"@, 0, pv);
                            let j = choose|j: int|
                                0 <= j < entries@.len() && entries@[j].1 == pv;
                            assert(decreases_to!(t => entries));
                            assert(decreases_to!(entries => entries@));
                            assert(decreases_to!(entries@ => entries@[j]));
                            assert(decreases_to!(entries@[j] => entries@[j].1));
                            assert(decreases_to!(entries@[j].1 => pentries));
                            assert(decreases_to!(pentries => pentries@));
                            assert(decreases_to!(t => pentries@));
                            lemma_children_well_formed(pentries@, path, 0, s->Obj_entries);
                        }
                    },
                    _ => {},
                },
                None => {},
            }
        },
        _ => {},
    }
}

/// The children a successful walk yields are one per property, each
/// well-formed.
pub proof fn lemma_children_well_formed(
    entries: Seq<(String, Json)>,
    path: Seq<char>,
    i: int,
    cs: Seq<(Seq<char>, SchemaV)>,
)
    requires
        0 <= i <= entries.len(),
        crate::schema::spec_schema_children(entries, path, i) == Ok::<
            Seq<(Seq<char>, SchemaV)>,
            ErrV,
        >(cs),
    ensures
        cs.len() == entries.len() - i,
        forall|j: int| 0 <= j < cs.len() ==> schema_wf(#[trigger] cs[j].1),
    decreases entries, entries.len() - i,
{
    if i < entries.len() {
        match spec_schema_of(entries[i].1, crate::schema::spec_child_path(path, entries[i].0@)) {
            Ok(c) => {
                match crate::schema::spec_schema_children(entries, path, i + 1) {
                    Ok(rest) => {
                        lemma_parse_well_formed(
                            entries[i].1,
                            crate::schema::spec_child_path(path, entries[i].0@),
                            c,
                        );
                        lemma_children_well_formed(entries, path, i + 1, rest);
                        assert(cs == seq![(entries[i].0@, c)] + rest);
                        assert(cs[0].1 == c);
                        assert(forall|j: int| 1 <= j < cs.len() ==> cs[j] == rest[j - 1]);
                    },
                    Err(_) => {},
                }
            },
            Err(_) => {},
        }
    }
}

/// The invariant at the level of a whole parse of the document text.
pub proof fn lemma_document_well_formed(text: Seq<char>, s: SchemaV)
    requires
        crate::schema::spec_parse_outcome(text) == Ok::<SchemaV, ErrV>(s),
    ensures
        schema_wf(s),
{
    match crate::json::json_doc(text) {
        Some(t) => {
            lemma_parse_well_formed(t, Seq::empty(), s);
        },
        None => {},
    }
}

} // verus!

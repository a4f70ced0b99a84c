use vstd::prelude::*;
use vstd::string::*;

use crate::fields::{field_result_view, map_leaf, spec_map_leaf, FieldSpec, FieldSpecV};
use crate::schema::{
    lemma_sv_entries, sn_entries_view, spec_child_path, sv, sv_entries, child_path, ErrV,
    LogicErrorKind, SchemaError, SchemaNode, SchemaV,
};

verus! {

/// The mathematical value of an accessor list.
pub open spec fn specs_view(v: Seq<FieldSpec>) -> Seq<FieldSpecV> {
    Seq::new(v.len(), |i: int| v[i]@)
}

pub open spec fn specs_result_view(r: Result<Vec<FieldSpec>, SchemaError>) -> Result<
    Seq<FieldSpecV>,
    ErrV,
> {
    match r {
        Ok(v) => Ok(specs_view(v@)),
        Err(e) => Err(e@),
    }
}

/// The accessors of the subtree at `path`, in depth-first declaration
/// order: one per leaf; the first error wins.
pub open spec fn spec_dfs(s: SchemaV, path: Seq<char>) -> Result<Seq<FieldSpecV>, ErrV>
    decreases s,
{
    match s {
        SchemaV::Leaf { typ, default } => match spec_map_leaf(typ, default, path) {
            Ok(f) => Ok(seq![f]),
            Err(e) => Err(e),
        },
        SchemaV::Obj { entries } => spec_dfs_children(entries, path, 0),
    }
}

/// The accessors of an object's properties from position `i` on.
pub open spec fn spec_dfs_children(
    entries: Seq<(Seq<char>, SchemaV)>,
    path: Seq<char>,
    i: int,
) -> Result<Seq<FieldSpecV>, ErrV>
    decreases entries, entries.len() - i,
{
    if i < 0 || i >= entries.len() {
        Ok(Seq::empty())
    } else {
        match spec_dfs(entries[i].1, spec_child_path(path, entries[i].0)) {
            Err(e) => Err(e),
            Ok(fs) => match spec_dfs_children(entries, path, i + 1) {
                Err(e) => Err(e),
                Ok(rest) => Ok(fs + rest),
            },
        }
    }
}

/// Walks the schema tree depth-first and lists one accessor per leaf.
fn dfs(s: &SchemaNode, path: &String) -> (r: Result<Vec<FieldSpec>, SchemaError>)
    ensures
        specs_result_view(r) == spec_dfs(sv(*s), path@),
    decreases *s,
{
    match s {
        SchemaNode::Leaf { typ, default } => match map_leaf(typ, default, path) {
            Ok(f) => {
                let mut v: Vec<FieldSpec> = Vec::new();
                let ghost fv = f@;
                v.push(f);
                proof {
                    assert(specs_view(v@) =~= seq![fv]);
                }
                Ok(v)
            },
            Err(e) => Err(e),
        },
        SchemaNode::Obj { entries } => {
            proof {
                lemma_sv_entries(entries@, 0);
                assert(sv_entries(entries@, 0) =~= sn_entries_view(entries@));
            }
            dfs_children(entries, path, 0)
        },
    }
}

/// Walks the properties of an object node from position `i` on.
fn dfs_children(entries: &Vec<(String, SchemaNode)>, path: &String, i: usize) -> (r: Result<
    Vec<FieldSpec>,
    SchemaError,
>)
    requires
        i <= entries@.len(),
    ensures
        specs_result_view(r) == spec_dfs_children(sn_entries_view(entries@), path@, i as int),
    decreases *entries, entries@.len() - i,
{
    if i == entries.len() {
        let empty: Vec<FieldSpec> = Vec::new();
        proof {
            assert(specs_view(empty@) =~= Seq::<FieldSpecV>::empty());
        }
        Ok(empty)
    } else {
        let cp = child_path(path, &entries[i].0);
        match dfs(&entries[i].1, &cp) {
            Err(e) => Err(e),
            Ok(fs) => {
                match dfs_children(entries, path, i + 1) {
                    Err(e) => Err(e),
                    Ok(mut rest) => {
                        let ghost fs0 = fs@;
                        let ghost rest0 = rest@;
                        let mut out = fs;
                        out.append(&mut rest);
                        proof {
                            assert(specs_view(out@) =~= specs_view(fs0) + specs_view(rest0));
                        }
                        Ok(out)
                    },
                }
            },
        }
    }
}

/// The position of the first accessor whose identifier already occurred
/// earlier in the list, if any.
pub open spec fn spec_first_dup_from(fs: Seq<FieldSpecV>, j: int) -> Option<int>
    decreases fs.len() - j,
{
    if j < 0 || j >= fs.len() {
        None
    } else if exists|i: int| 0 <= i < j && fs[i].identifier == fs[j].identifier {
        Some(j)
    } else {
        spec_first_dup_from(fs, j + 1)
    }
}

pub open spec fn spec_first_dup(fs: Seq<FieldSpecV>) -> Option<int> {
    spec_first_dup_from(fs, 0)
}

/// Finds the first identifier collision in an accessor list.
fn find_duplicate(fs: &Vec<FieldSpec>) -> (r: Option<usize>)
    ensures
        match r {
            Some(j) => spec_first_dup(specs_view(fs@)) == Some(j as int) && j < fs@.len(),
            None => spec_first_dup(specs_view(fs@)) is None,
        },
{
    let n = fs.len();
    let mut j: usize = 0;
    while j < n
        invariant
            j <= n,
            n == fs@.len(),
            spec_first_dup(specs_view(fs@)) == spec_first_dup_from(specs_view(fs@), j as int),
        decreases n - j,
    {
        let mut i: usize = 0;
        while i < j
            invariant
                i <= j < n,
                n == fs@.len(),
                spec_first_dup(specs_view(fs@)) == spec_first_dup_from(
                    specs_view(fs@),
                    j as int,
                ),
                forall|k: int|
                    0 <= k < i ==> specs_view(fs@)[k].identifier != specs_view(
                        fs@,
                    )[j as int].identifier,
            decreases j - i,
        {
            if fs[i].identifier.eq(&fs[j].identifier) {
                proof {
                    let v = specs_view(fs@);
                    assert(v[i as int].identifier == v[j as int].identifier);
                    assert(exists|k: int|
                        0 <= k < j && v[k].identifier == v[j as int].identifier);
                    assert(spec_first_dup_from(v, j as int) == Some(j as int));
                }
                return Some(j);
            }
            i = i + 1;
        }
        j = j + 1;
    }
    None
}

/// The flattened accessor list of a whole schema: the depth-first list,
/// unless two dotted paths sanitize to the same identifier, which is a
/// collision error naming the later path.
pub open spec fn spec_flatten(s: SchemaV) -> Result<Seq<FieldSpecV>, ErrV> {
    match spec_dfs(s, Seq::empty()) {
        Err(e) => Err(e),
        Ok(fs) => match spec_first_dup(fs) {
            Some(j) => Err(
                ErrV::Logic { path: fs[j].path, reason: LogicErrorKind::DuplicateIdentifier },
            ),
            None => Ok(fs),
        },
    }
}

/// Flattens a schema tree into its ordered accessor list, with
/// everything `spec_flatten` states.
pub fn flatten(root: &SchemaNode) -> (r: Result<Vec<FieldSpec>, SchemaError>)
    ensures
        specs_result_view(r) == spec_flatten(sv(*root)),
{
    let root_path = String::new();
    match dfs(root, &root_path) {
        Err(e) => Err(e),
        Ok(fs) => match find_duplicate(&fs) {
            Some(j) => Err(
                SchemaError::Logic {
                    path: fs[j].path.clone(),
                    reason: LogicErrorKind::DuplicateIdentifier,
                },
            ),
            None => Ok(fs),
        },
    }
}

} // verus!

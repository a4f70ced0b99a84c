use vstd::prelude::*;
use vstd::string::*;

use crate::fields::{BaseType, FieldSpec, FieldSpecV, Target, TargetV};
use crate::flatten::specs_view;
use crate::text::escape_str;
use crate::text::escaped;

verus! {

/// The fixed head of the emitted interface: the trait opening and the
/// three primitive lookups that the host application must implement.
pub open spec fn trait_header() -> Seq<char> {
    "pub trait TypedConfig {\n    fn get_bool(&self, key: &str) -> Option<bool>;\n    fn get_int(&self, key: &str) -> Option<i64>;\n    fn get_str(&self, key: &str) -> Option<String>;\n"@
}

/// The optional return type of an accessor without a default.
pub open spec fn opt_ret(b: BaseType) -> Seq<char> {
    match b {
        BaseType::Bool => "Option<bool>"@,
        BaseType::Int => "Option<i64>"@,
        BaseType::Text => "Option<String>"@,
    }
}

/// The required return type of an accessor with a default.
pub open spec fn req_ret(b: BaseType) -> Seq<char> {
    match b {
        BaseType::Bool => "bool"@,
        BaseType::Int => "i64"@,
        BaseType::Text => "String"@,
    }
}

/// The primitive lookup that an accessor of the given base type calls.
pub open spec fn getter_name(b: BaseType) -> Seq<char> {
    match b {
        BaseType::Bool => "get_bool"@,
        BaseType::Int => "get_int"@,
        BaseType::Text => "get_str"@,
    }
}

/// The text that substitutes the default literal when the primitive
/// lookup yields nothing.
pub open spec fn fallback_text(b: BaseType, lit: Seq<char>) -> Seq<char> {
    match b {
        BaseType::Text => ".unwrap_or_else(|| "@ + lit + ".to_string())"@,
        _ => ".unwrap_or("@ + lit + ")"@,
    }
}

/// The full text of one derived accessor: a method named by the
/// sanitized identifier whose body calls the matching primitive with the
/// dotted path as key; with a default it substitutes the default literal
/// and returns a required value, without one it forwards the optional
/// result; an unsupported type yields an empty placeholder method.
pub open spec fn accessor_text(f: FieldSpecV) -> Seq<char> {
    match f.target {
        TargetV::Optional(b) => "\n    fn "@ + f.identifier + "(&self) -> "@ + opt_ret(b)
            + " {\n        self."@ + getter_name(b) + "(\""@ + escaped(f.path) + "\")\n    }\n"@,
        TargetV::Defaulted(b, lit) => "\n    fn "@ + f.identifier + "(&self) -> "@ + req_ret(b)
            + " {\n        self."@ + getter_name(b) + "(\""@ + escaped(f.path) + "\")"@
            + fallback_text(b, lit) + "\n    }\n"@,
        TargetV::Stub(t) => "\n    fn "@ + f.identifier
            + "(&self) {\n        // unsupported schema type: "@ + t + "\n    }\n"@,
    }
}

/// The accessor blocks of a list, in order.
pub open spec fn emit_accessors(fs: Seq<FieldSpecV>) -> Seq<char>
    decreases fs.len(),
{
    if fs.len() == 0 {
        Seq::empty()
    } else {
        emit_accessors(fs.drop_last()) + accessor_text(fs.last())
    }
}

/// The whole emitted source: the fixed header, one accessor per field in
/// order, and the closing brace. The text is self-contained: it needs
/// nothing but implementations of the three primitive lookups.
pub open spec fn spec_emit(fs: Seq<FieldSpecV>) -> Seq<char> {
    trait_header() + emit_accessors(fs) + "}\n"@
}

fn opt_ret_str(b: &BaseType) -> (r: &'static str)
    ensures
        r@ == opt_ret(*b),
{
    match b {
        BaseType::Bool => "Option<bool>",
        BaseType::Int => "Option<i64>",
        BaseType::Text => "Option<String>",
    }
}

fn req_ret_str(b: &BaseType) -> (r: &'static str)
    ensures
        r@ == req_ret(*b),
{
    match b {
        BaseType::Bool => "bool",
        BaseType::Int => "i64",
        BaseType::Text => "String",
    }
}

fn getter_str(b: &BaseType) -> (r: &'static str)
    ensures
        r@ == getter_name(*b),
{
    match b {
        BaseType::Bool => "get_bool",
        BaseType::Int => "get_int",
        BaseType::Text => "get_str",
    }
}

/// Assembles the interface source from the accessor list, with exactly
/// the text `spec_emit` states.
#[verifier::rlimit(100)]
pub fn emit(fs: &Vec<FieldSpec>) -> (out: String)
    ensures
        out@ == spec_emit(specs_view(fs@)),
{
    let mut out = String::from_str(
        "pub trait TypedConfig {\n    fn get_bool(&self, key: &str) -> Option<bool>;\n    fn get_int(&self, key: &str) -> Option<i64>;\n    fn get_str(&self, key: &str) -> Option<String>;\n",
    );
    let n = fs.len();
    let mut i: usize = 0;
    while i < n
        invariant
            i <= n,
            n == fs@.len(),
            out@ == trait_header() + emit_accessors(specs_view(fs@).take(i as int)),
        decreases n - i,
    {
        match &fs[i].target {
            Target::Optional(b) => {
                out.append("\n    fn ");
                out.append(fs[i].identifier.as_str());
                out.append("(&self) -> ");
                out.append(opt_ret_str(b));
                out.append(" {\n        self.");
                out.append(getter_str(b));
                out.append("(\"");
                let esc = escape_str(fs[i].path.as_str());
                out.append(esc.as_str());
                out.append("\")\n    }\n");
            },
            Target::Defaulted(b, lit) => {
                out.append("\n    fn ");
                out.append(fs[i].identifier.as_str());
                out.append("(&self) -> ");
                out.append(req_ret_str(b));
                out.append(" {\n        self.");
                out.append(getter_str(b));
                out.append("(\"");
                let esc = escape_str(fs[i].path.as_str());
                out.append(esc.as_str());
                out.append("\")");
                match b {
                    BaseType::Text => {
                        out.append(".unwrap_or_else(|| ");
                        out.append(lit.as_str());
                        out.append(".to_string())");
                    },
                    _ => {
                        out.append(".unwrap_or(");
                        out.append(lit.as_str());
                        out.append(")");
                    },
                }
                out.append("\n    }\n");
            },
            Target::Stub(t) => {
                out.append("\n    fn ");
                out.append(fs[i].identifier.as_str());
                out.append("(&self) {\n        // unsupported schema type: ");
                out.append(t.as_str());
                out.append("\n    }\n");
            },
        }
        i = i + 1;
        proof {
            let v = specs_view(fs@);
            assert(v.take(i as int).drop_last() =~= v.take(i - 1));
            assert(v.take(i as int).last() == v[i - 1]);
            assert(out@ =~= trait_header() + emit_accessors(v.take(i as int)));
        }
    }
    out.append("}\n");
    proof {
        assert(specs_view(fs@).take(n as int) =~= specs_view(fs@));
        assert(out@ =~= spec_emit(specs_view(fs@)));
    }
    out
}

} // verus!

use vstd::prelude::*;
use vstd::string::*;

use crate::schema::{scalar_opt_view, ErrV, LogicErrorKind, Scalar, ScalarV, SchemaError};
use crate::text::{
    bool_literal, i64_to_dec, int_literal, quote_str, quoted, sanitize_str, sanitized,
};

verus! {

/// The scalar base type of a derived accessor.
#[derive(Clone, Copy, Debug, PartialEq, Eq, Structural)]
pub enum BaseType {
    Bool,
    Int,
    Text,
}

/// The target shape of one derived accessor.
pub enum Target {
    /// An optional result that forwards the primitive lookup unchanged.
    Optional(BaseType),
    /// A required result: the primitive lookup falls back to the given
    /// default literal.
    Defaulted(BaseType, String),
    /// A placeholder for an unsupported declared type, kept so that one
    /// unknown leaf does not fail the whole run; the carried text is the
    /// declared type.
    Stub(String),
}

/// The mathematical value of a `Target`.
pub enum TargetV {
    Optional(BaseType),
    Defaulted(BaseType, Seq<char>),
    Stub(Seq<char>),
}

impl View for Target {
    type V = TargetV;

    open spec fn view(&self) -> TargetV {
        match self {
            Target::Optional(b) => TargetV::Optional(*b),
            Target::Defaulted(b, lit) => TargetV::Defaulted(*b, lit@),
            Target::Stub(t) => TargetV::Stub(t@),
        }
    }
}

/// One derived accessor: its dotted lookup path, its sanitized
/// identifier, and its target shape.
pub struct FieldSpec {
    pub path: String,
    pub identifier: String,
    pub target: Target,
}

/// The mathematical value of a `FieldSpec`.
pub struct FieldSpecV {
    pub path: Seq<char>,
    pub identifier: Seq<char>,
    pub target: TargetV,
}

impl View for FieldSpec {
    type V = FieldSpecV;

    open spec fn view(&self) -> FieldSpecV {
        FieldSpecV { path: self.path@, identifier: self.identifier@, target: self.target@ }
    }
}

/// The field at `path` with the given target: its identifier is always
/// the sanitized path.
pub open spec fn field_v(path: Seq<char>, target: TargetV) -> FieldSpecV {
    FieldSpecV { path, identifier: sanitized(path), target }
}

/// Maps a leaf's declared type, default and dotted path to its accessor.
///
/// `string`, `boolean` and `integer` yield an optional accessor, or a
/// required one when a default of the matching type is declared; a
/// default of any other shape is a logic error. Any other declared type
/// yields a placeholder stub instead of an error, a deliberate soft
/// failure that keeps generation resilient to unknown leaf types.
pub open spec fn spec_map_leaf(typ: Seq<char>, default: Option<ScalarV>, path: Seq<char>) -> Result<
    FieldSpecV,
    ErrV,
> {
    if typ == "string"@ {
        match default {
            None => Ok(field_v(path, TargetV::Optional(BaseType::Text))),
            Some(ScalarV::Text(s)) => Ok(
                field_v(path, TargetV::Defaulted(BaseType::Text, quoted(s))),
            ),
            Some(_) => Err(ErrV::Logic { path, reason: LogicErrorKind::DefaultTypeMismatch }),
        }
    } else if typ == "boolean"@ {
        match default {
            None => Ok(field_v(path, TargetV::Optional(BaseType::Bool))),
            Some(ScalarV::Bool(b)) => Ok(
                field_v(path, TargetV::Defaulted(BaseType::Bool, bool_literal(b))),
            ),
            Some(_) => Err(ErrV::Logic { path, reason: LogicErrorKind::DefaultTypeMismatch }),
        }
    } else if typ == "integer"@ {
        match default {
            None => Ok(field_v(path, TargetV::Optional(BaseType::Int))),
            Some(ScalarV::Int(i)) => Ok(
                field_v(path, TargetV::Defaulted(BaseType::Int, int_literal(i))),
            ),
            Some(_) => Err(ErrV::Logic { path, reason: LogicErrorKind::DefaultTypeMismatch }),
        }
    } else {
        Ok(field_v(path, TargetV::Stub(typ)))
    }
}

pub open spec fn field_result_view(r: Result<FieldSpec, SchemaError>) -> Result<FieldSpecV, ErrV> {
    match r {
        Ok(f) => Ok(f@),
        Err(e) => Err(e@),
    }
}

/// Builds the accessor of one leaf, with everything `spec_map_leaf`
/// states.
pub fn map_leaf(typ: &String, default: &Option<Scalar>, path: &String) -> (r: Result<
    FieldSpec,
    SchemaError,
>)
    ensures
        field_result_view(r) == spec_map_leaf(typ@, scalar_opt_view(*default), path@),
{
    let identifier = sanitize_str(path.as_str());
    if typ.eq(&String::from_str("string")) {
        match default {
            None => Ok(
                FieldSpec { path: path.clone(), identifier, target: Target::Optional(
                    BaseType::Text,
                ) },
            ),
            Some(Scalar::Text(s)) => {
                let lit = quote_str(s.as_str());
                Ok(
                    FieldSpec { path: path.clone(), identifier, target: Target::Defaulted(
                        BaseType::Text,
                        lit,
                    ) },
                )
            },
            Some(_) => Err(
                SchemaError::Logic {
                    path: path.clone(),
                    reason: LogicErrorKind::DefaultTypeMismatch,
                },
            ),
        }
    } else if typ.eq(&String::from_str("boolean")) {
        match default {
            None => Ok(
                FieldSpec { path: path.clone(), identifier, target: Target::Optional(
                    BaseType::Bool,
                ) },
            ),
            Some(Scalar::Bool(b)) => {
                let lit = if *b {
                    String::from_str("true")
                } else {
                    String::from_str("false")
                };
                Ok(
                    FieldSpec { path: path.clone(), identifier, target: Target::Defaulted(
                        BaseType::Bool,
                        lit,
                    ) },
                )
            },
            Some(_) => Err(
                SchemaError::Logic {
                    path: path.clone(),
                    reason: LogicErrorKind::DefaultTypeMismatch,
                },
            ),
        }
    } else if typ.eq(&String::from_str("integer")) {
        match default {
            None => Ok(
                FieldSpec { path: path.clone(), identifier, target: Target::Optional(
                    BaseType::Int,
                ) },
            ),
            Some(Scalar::Int(i)) => {
                let lit = i64_to_dec(*i);
                Ok(
                    FieldSpec { path: path.clone(), identifier, target: Target::Defaulted(
                        BaseType::Int,
                        lit,
                    ) },
                )
            },
            Some(_) => Err(
                SchemaError::Logic {
                    path: path.clone(),
                    reason: LogicErrorKind::DefaultTypeMismatch,
                },
            ),
        }
    } else {
        Ok(FieldSpec { path: path.clone(), identifier, target: Target::Stub(typ.clone()) })
    }
}

} // verus!

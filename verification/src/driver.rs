use vstd::prelude::*;

use crate::emit::{emit, spec_emit};
use crate::flatten::{flatten, spec_flatten};
use crate::schema::{parse_document, spec_parse_outcome, ErrV, SchemaError};

verus! {

/// What one generation run yields for a given document text: the parse
/// outcome piped through flattening and emission, the first error
/// winning. A function of the text alone.
pub open spec fn spec_outcome(s: Seq<char>) -> Result<Seq<char>, ErrV> {
    match spec_parse_outcome(s) {
        Err(e) => Err(e),
        Ok(sch) => match spec_flatten(sch) {
            Err(e) => Err(e),
            Ok(fs) => Ok(spec_emit(fs)),
        },
    }
}

pub open spec fn text_result_view(r: Result<String, SchemaError>) -> Result<Seq<char>, ErrV> {
    match r {
        Ok(s) => Ok(s@),
        Err(e) => Err(e@),
    }
}

/// Generates the interface source from the schema document text:
/// parse, flatten, emit. Any error aborts the run with no output.
pub fn generate(text: &str) -> (r: Result<String, SchemaError>)
    ensures
        text_result_view(r) == spec_outcome(text@),
{
    match parse_document(text) {
        Err(e) => Err(e),
        Ok(root) => match flatten(&root) {
            Err(e) => Err(e),
            Ok(fs) => Ok(emit(&fs)),
        },
    }
}

} // verus!

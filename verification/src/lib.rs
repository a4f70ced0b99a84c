pub mod driver;
pub mod emit;
pub mod fields;
pub mod flatten;
pub mod json;
pub mod laws;
pub mod schema;
pub mod text;

pub use driver::generate;
pub use emit::emit;
pub use fields::{BaseType, FieldSpec, Target};
pub use flatten::flatten;
pub use json::{parse_json, Json};
pub use schema::{parse_document, LogicErrorKind, Scalar, SchemaError, SchemaNode};

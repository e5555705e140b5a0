//! Typed identifier wrappers: newtypes over strings, integers, UUIDs and URIs
//! that are mutually incompatible at the type level, with their construction
//! rules stated and proved.

pub mod display;
pub mod error;
pub mod integer_id;
pub mod plan;
pub mod string_id;
pub mod text;
pub mod uri_id;
pub mod uuid_id;

pub use error::{BlankError, EmptyError};
pub use fluent_uri;
pub use uuid;
pub use integer_id::{IntegerId, IntegerIdentifier};
pub use plan::{
    AttributeArg, Conversion, DeriveError, ErrorType, FieldStyle, ItemKind, ItemShape, SimplePlan,
    StringMode, StringPlan,
};
pub use string_id::{
    validate_any, validate_non_blank, validate_non_empty, AnyId, NonBlankId, NonEmptyId,
    StringIdentifier,
};
pub use uri_id::{InvalidUri, UriId, UriIdentifier};
pub use uuid_id::{UuidId, UuidIdentifier};

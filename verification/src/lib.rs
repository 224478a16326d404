//! A normalization layer that turns heterogeneous representations of an HTTP
//! header's values — a strongly-typed field, a single validated entry, a
//! container or slice of entries, or raw text in several ownership shapes —
//! into one canonical form: a pull-based sequence of validated header value
//! entries. Only the raw-text path can fail, and it fails exactly when the
//! text holds a character that no header value may contain.

pub mod value;
pub mod values;
pub mod iter;
pub mod convert;
pub mod laws;

pub use crate::value::{FieldValue, ParseError};
pub use crate::values::HeaderValues;
pub use crate::iter::{collect_values, ClonedValuesIter, HeaderValueIter, SingleValueIter};
pub use crate::convert::{ConstantField, ConversionError, Field, ToHeaderValues};

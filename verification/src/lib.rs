//! Projection of in-memory values into a minimal XML-like text.
//!
//! A [`Value`] describes what is to be written: a leaf, an optional, a sequence, a tuple, a
//! mapping, a struct or an enum variant. A [`Serializer`] receives one notification per shape
//! and appends text and `<name>`/`</name>` tag pairs to a sink of bytes; [`Value::serialize`]
//! walks a value and sends the notifications. What reaches the sink, and whether the value is
//! accepted at all, is stated once as a mathematical function, [`Value::projection`], and
//! every executable function is proved against it.
//!
//! The output has no header, no attributes and no white space, and no character of a string
//! is escaped.

pub mod error;
pub mod laws;
pub mod projection;
pub mod ser;
pub mod text;
pub mod value;
pub mod visit;

pub use error::Error;
pub use projection::Projection;
pub use ser::seq::SeqSerializer;
pub use ser::tuples::TupleSerializer;
pub use ser::var::{MapSerializer, StructSerializer};
pub use ser::{to_string, to_writer, Serializer};
pub use value::{Shape, Value};

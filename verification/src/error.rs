//! What can go wrong while a value is projected.

use vstd::prelude::*;

use crate::value::Shape;

verus! {

/// `std::string::FromUtf8Error`, carried as it is: nothing is known of what it holds.
#[verifier::external_type_specification]
#[verifier::external_body]
pub struct ExFromUtf8Error(std::string::FromUtf8Error);

/// The failures of a projection. The first one met ends the projection; what was written
/// before it stays in the sink.
#[derive(Debug, PartialEq, Eq)]
pub enum Error {
    /// A value of this shape cannot be written where it stands: raw bytes anywhere, a bare
    /// leaf as an element of a sequence or of a tuple, a key of a mapping that is no token.
    UnsupportedShape(Shape),
    /// The bytes that were written do not form a text.
    InvalidText(std::string::FromUtf8Error),
}

} // verus!

//! What the projectors of sequences and tuples share.

use vstd::prelude::*;
use vstd::utf8::encode_utf8;

use crate::error::Error;
use crate::ser::Serializer;
use crate::value::Value;

verus! {

/// Projects a value that no name wraps. Such a value has to describe itself, so a primitive
/// is refused, also behind an optional; anything else is projected as if it stood alone.
pub fn serialize_self_describing(parent: &mut Serializer, value: &Value) -> (res: Result<
    (),
    Error,
>)
    ensures
        final(parent)@ == old(parent)@ + encode_utf8(value.element().text),
        value.element().ends_in(res),
    decreases value, 1nat,
{
    let shape = value.shape();
    if shape.primitive() {
        Err(Error::UnsupportedShape(shape))
    } else {
        value.serialize(parent)
    }
}

} // verus!

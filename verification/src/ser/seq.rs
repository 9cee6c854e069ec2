//! The projector of a sequence.

use vstd::prelude::*;
use vstd::utf8::encode_utf8;

use crate::error::Error;
use crate::ser::helpers::serialize_self_describing;
use crate::ser::Serializer;
use crate::value::Value;

verus! {

/// A sequence in progress. It has no tags of its own: its elements follow one another with
/// nothing between them.
pub struct SeqSerializer<'w> {
    /// The serializer through which the projector writes.
    pub parent: &'w mut Serializer,
}

impl<'w> SeqSerializer<'w> {
    /// A projector that writes through `parent`.
    pub fn new(parent: &'w mut Serializer) -> (s: Self)
        ensures
            s.parent@ == old(parent)@,
            *final(s.parent) == *final(parent),
    {
        SeqSerializer { parent }
    }

    /// Projects the next element.
    pub fn serialize_element(&mut self, value: &Value) -> (res: Result<(), Error>)
        ensures
            final(self).parent@ == old(self).parent@ + encode_utf8(value.element().text),
            value.element().ends_in(res),
            *final(final(self).parent) == *final(old(self).parent),
        decreases value, 2nat,
    {
        serialize_self_describing(self.parent, value)
    }

    /// Ends the sequence; nothing is written.
    pub fn end(self) -> (res: Result<(), Error>)
        ensures
            *final(self.parent) == *old(self.parent),
            res is Ok,
    {
        Ok(())
    }
}

} // verus!

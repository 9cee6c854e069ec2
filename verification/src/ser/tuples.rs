//! The projector of tuples, tuple structs and tuple variants.

use vstd::prelude::*;
use vstd::utf8::encode_utf8;

use crate::error::Error;
use crate::ser::helpers::serialize_self_describing;
use crate::ser::Serializer;
use crate::text::close_tag;
use crate::value::Value;

verus! {

/// A tuple in progress. A tuple with a name is closed by the tag of that name; one without
/// has no tags of its own.
pub struct TupleSerializer<'w> {
    /// The serializer through which the projector writes.
    pub parent: &'w mut Serializer,
    /// The name whose closing tag ends the tuple, if it has one.
    pub name: Option<&'w str>,
}

impl<'w> TupleSerializer<'w> {
    /// The projector of a tuple without a name.
    pub fn new(parent: &'w mut Serializer) -> (s: Self)
        ensures
            s.parent@ == old(parent)@,
            s.name is None,
            *final(s.parent) == *final(parent),
    {
        TupleSerializer { parent, name: None }
    }

    /// The projector of a tuple whose opening tag has been written.
    pub fn new_with_name(parent: &'w mut Serializer, name: &'w str) -> (s: Self)
        ensures
            s.parent@ == old(parent)@,
            s.name == Some(name),
            *final(s.parent) == *final(parent),
    {
        TupleSerializer { parent, name: Some(name) }
    }

    /// The text that ends the tuple.
    pub open spec fn closing(self) -> Seq<char> {
        match self.name {
            Some(name) => close_tag(name@),
            None => Seq::empty(),
        }
    }

    /// Projects the element at the next position.
    pub fn serialize_element(&mut self, value: &Value) -> (res: Result<(), Error>)
        ensures
            final(self).parent@ == old(self).parent@ + encode_utf8(value.element().text),
            value.element().ends_in(res),
            final(self).name == old(self).name,
            *final(final(self).parent) == *final(old(self).parent),
        decreases value, 2nat,
    {
        serialize_self_describing(self.parent, value)
    }

    /// Projects the field at the next position of a tuple struct or of a tuple variant.
    pub fn serialize_field(&mut self, value: &Value) -> (res: Result<(), Error>)
        ensures
            final(self).parent@ == old(self).parent@ + encode_utf8(value.element().text),
            value.element().ends_in(res),
            final(self).name == old(self).name,
            *final(final(self).parent) == *final(old(self).parent),
        decreases value, 3nat,
    {
        self.serialize_element(value)
    }

    /// Ends the tuple: writes the closing tag if the tuple has a name.
    pub fn end(self) -> (res: Result<(), Error>)
        ensures
            final(self.parent)@ == old(self.parent)@ + encode_utf8(self.closing()),
            res is Ok,
    {
        match self.name {
            Some(name) => self.parent.write_close_tag(name),
            None => {},
        }
        Ok(())
    }
}

} // verus!

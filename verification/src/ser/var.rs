//! The projectors of mappings and of structs.

use vstd::prelude::*;
use vstd::utf8::encode_utf8;

use crate::error::Error;
use crate::projection::lemma_wrapped;
use crate::ser::Serializer;
use crate::text::{close_tag, lemma_close_tag_bytes, lemma_open_tag_bytes};
use crate::value::Value;

verus! {

/// A mapping in progress. It has no tags of its own: each entry is wrapped in tags named by
/// its key.
pub struct MapSerializer<'w> {
    /// The serializer through which the projector writes.
    pub parent: &'w mut Serializer,
}

impl<'w> MapSerializer<'w> {
    /// A projector that writes through `parent`.
    pub fn new(parent: &'w mut Serializer) -> (s: Self)
        ensures
            s.parent@ == old(parent)@,
            *final(s.parent) == *final(parent),
    {
        MapSerializer { parent }
    }

    /// Projects the next entry: the value, between tags named by the text of the key. The
    /// key has to be a token, that is a primitive or a variant without payload; any other key
    /// is refused before anything is written.
    pub fn serialize_entry(&mut self, key: &Value, value: &Value) -> (res: Result<(), Error>)
        ensures
            final(self).parent@ == old(self).parent@ + encode_utf8(Value::entry(*key, *value).text),
            Value::entry(*key, *value).ends_in(res),
            *final(final(self).parent) == *final(old(self).parent),
        decreases value, 2nat,
    {
        let shape = key.shape();
        if !shape.token() {
            return Err(Error::UnsupportedShape(shape));
        }
        proof {
            reveal_strlit("<");
            reveal_strlit(">");
            reveal_strlit("</");
            assert("<"@ =~= seq!['<']);
            assert(">"@ =~= seq!['>']);
            assert("</"@ =~= seq!['<', '/']);
            lemma_open_tag_bytes(key.token_text());
            lemma_close_tag_bytes(key.token_text());
            lemma_wrapped(old(self).parent@, value.projection(), key.token_text());
        }
        self.parent.write_primitive("<");
        key.serialize_token(self.parent)?;
        self.parent.write_primitive(">");
        value.serialize(self.parent)?;
        self.parent.write_primitive("</");
        key.serialize_token(self.parent)?;
        self.parent.write_primitive(">");
        Ok(())
    }

    /// Ends the mapping; nothing is written.
    pub fn end(self) -> (res: Result<(), Error>)
        ensures
            *final(self.parent) == *old(self.parent),
            res is Ok,
    {
        Ok(())
    }
}

/// A struct, or a variant with named fields, in progress. Its opening tag has been written;
/// each field is wrapped in tags named by the field.
pub struct StructSerializer<'w> {
    /// The serializer through which the projector writes.
    pub parent: &'w mut Serializer,
    /// The name whose closing tag ends the struct.
    pub name: &'w str,
}

impl<'w> StructSerializer<'w> {
    /// The projector of a struct whose closing tag will be that of `name`.
    pub fn new(parent: &'w mut Serializer, name: &'w str) -> (s: Self)
        ensures
            s.parent@ == old(parent)@,
            s.name == name,
            *final(s.parent) == *final(parent),
    {
        StructSerializer { parent, name }
    }

    /// Projects the next field: the value, between the tags of the field's name.
    pub fn serialize_field(&mut self, key: &str, value: &Value) -> (res: Result<(), Error>)
        ensures
            final(self).parent@ == old(self).parent@ + encode_utf8(
                value.projection().wrapped(key@).text,
            ),
            value.projection().wrapped(key@).ends_in(res),
            final(self).name == old(self).name,
            *final(final(self).parent) == *final(old(self).parent),
        decreases value, 2nat,
    {
        self.parent.write_wrapped(key, value)
    }

    /// Ends the struct: writes its closing tag.
    pub fn end(self) -> (res: Result<(), Error>)
        ensures
            final(self.parent)@ == old(self.parent)@ + encode_utf8(close_tag(self.name@)),
            res is Ok,
    {
        self.parent.write_close_tag(self.name);
        Ok(())
    }
}

} // verus!

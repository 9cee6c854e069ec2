//! The serializer: one notification per shape, written to a byte sink.

use vstd::prelude::*;
use vstd::utf8::{encode_utf8, encode_utf8_decode_utf8, encode_utf8_valid_utf8, valid_utf8};

use crate::error::Error;
use crate::projection::{lemma_wrapped, Projection};
use crate::ser::seq::SeqSerializer;
use crate::ser::tuples::TupleSerializer;
use crate::ser::var::{MapSerializer, StructSerializer};
use crate::text::{
    bool_text, close_tag, integer_text, lemma_close_tag_bytes, lemma_open_tag_bytes, open_tag,
    push_char, push_decimal, push_integer, push_str,
};
use crate::value::{Shape, Value};

pub mod helpers;
pub mod seq;
pub mod tuples;
pub mod var;

verus! {

/// A convenience function for projecting a value into a buffer of bytes.
///
/// The UTF-8 encoding of the text of `value.projection()` is appended to `writer`, and the
/// result tells whether a shape was refused, and which. After a refusal `writer` holds what
/// was written before it.
pub fn to_writer(writer: &mut Vec<u8>, value: &Value) -> (res: Result<(), Error>)
    ensures
        final(writer)@ == old(writer)@ + encode_utf8(value.projection().text),
        value.projection().ends_in(res),
{
    let mut sink: Vec<u8> = Vec::new();
    std::mem::swap(writer, &mut sink);
    let mut ser = Serializer::new(sink);
    let res = value.serialize(&mut ser);
    *writer = ser.into_inner();
    res
}

/// `String::from_utf8` of std: it succeeds exactly on the byte sequences that are
/// well-formed UTF-8, and the string it then returns holds the very bytes it was given.
#[verifier::external_body]
fn string_from_utf8(bytes: Vec<u8>) -> (res: Result<String, std::string::FromUtf8Error>)
    ensures
        res is Ok <==> valid_utf8(bytes@),
        res matches Ok(s) ==> encode_utf8(s@) == bytes@,
{
    String::from_utf8(bytes)
}

/// A convenience function for projecting a value into a string.
///
/// The string is the text of `value.projection()` if no shape was refused; else the error
/// names the refused shape. The bytes that a projection writes always form a text, so
/// `Error::InvalidText` is never returned.
pub fn to_string(value: &Value) -> (res: Result<String, Error>)
    ensures
        res is Ok <==> value.projection().refused is None,
        res matches Ok(s) ==> s@ == value.projection().text,
        res matches Err(e) ==> e == Error::UnsupportedShape(value.projection().refused->0),
{
    let mut writer: Vec<u8> = Vec::with_capacity(128);
    to_writer(&mut writer, value)?;
    proof {
        let text = value.projection().text;
        encode_utf8_valid_utf8(text);
    }
    match string_from_utf8(writer) {
        Ok(string) => {
            proof {
                encode_utf8_decode_utf8(string@);
                encode_utf8_decode_utf8(value.projection().text);
            }
            Ok(string)
        },
        Err(e) => Err(Error::InvalidText(e)),
    }
}

/// An XML `Serializer`: it owns the bytes written so far and appends to them.
pub struct Serializer {
    writer: Vec<u8>,
}

impl View for Serializer {
    type V = Seq<u8>;

    /// The bytes in the sink.
    closed spec fn view(&self) -> Seq<u8> {
        self.writer@
    }
}

impl Serializer {
    /// A serializer that appends to the bytes of `writer`.
    pub fn new(writer: Vec<u8>) -> (s: Self)
        ensures
            s@ == writer@,
    {
        Self { writer: writer }
    }

    /// Hands the sink back.
    pub fn into_inner(self) -> (writer: Vec<u8>)
        ensures
            writer@ == self@,
    {
        self.writer
    }

    /// Writes a text as it is.
    fn write_primitive(&mut self, primitive: &str)
        ensures
            final(self)@ == old(self)@ + encode_utf8(primitive@),
    {
        push_str(&mut self.writer, primitive);
    }

    /// Writes `<tag>`.
    fn write_open_tag(&mut self, tag: &str)
        ensures
            final(self)@ == old(self)@ + encode_utf8(open_tag(tag@)),
    {
        push_char(&mut self.writer, '<');
        push_str(&mut self.writer, tag);
        push_char(&mut self.writer, '>');
        proof {
            lemma_open_tag_bytes(tag@);
        }
    }

    /// Writes `</tag>`.
    fn write_close_tag(&mut self, tag: &str)
        ensures
            final(self)@ == old(self)@ + encode_utf8(close_tag(tag@)),
    {
        proof {
            reveal_strlit("</");
            assert("</"@ =~= seq!['<', '/']);
        }
        push_str(&mut self.writer, "</");
        push_str(&mut self.writer, tag);
        push_char(&mut self.writer, '>');
        proof {
            lemma_close_tag_bytes(tag@);
        }
    }

    /// Writes `true` or `false`.
    pub fn serialize_bool(&mut self, v: bool) -> (res: Result<(), Error>)
        ensures
            final(self)@ == old(self)@ + encode_utf8(bool_text(v)),
            res is Ok,
    {
        proof {
            reveal_strlit("true");
            reveal_strlit("false");
            assert("true"@ =~= bool_text(true));
            assert("false"@ =~= bool_text(false));
        }
        if v {
            self.write_primitive("true");
        } else {
            self.write_primitive("false");
        }
        Ok(())
    }

    /// Writes the decimal text of the integer.
    pub fn serialize_i8(&mut self, v: i8) -> (res: Result<(), Error>)
        ensures
            final(self)@ == old(self)@ + encode_utf8(integer_text(v as int)),
            res is Ok,
    {
        push_integer(&mut self.writer, v as i64);
        Ok(())
    }

    /// Writes the decimal text of the integer.
    pub fn serialize_i16(&mut self, v: i16) -> (res: Result<(), Error>)
        ensures
            final(self)@ == old(self)@ + encode_utf8(integer_text(v as int)),
            res is Ok,
    {
        push_integer(&mut self.writer, v as i64);
        Ok(())
    }

    /// Writes the decimal text of the integer.
    pub fn serialize_i32(&mut self, v: i32) -> (res: Result<(), Error>)
        ensures
            final(self)@ == old(self)@ + encode_utf8(integer_text(v as int)),
            res is Ok,
    {
        push_integer(&mut self.writer, v as i64);
        Ok(())
    }

    /// Writes the decimal text of the integer.
    pub fn serialize_i64(&mut self, v: i64) -> (res: Result<(), Error>)
        ensures
            final(self)@ == old(self)@ + encode_utf8(integer_text(v as int)),
            res is Ok,
    {
        push_integer(&mut self.writer, v);
        Ok(())
    }

    /// Writes the decimal text of the integer.
    pub fn serialize_u8(&mut self, v: u8) -> (res: Result<(), Error>)
        ensures
            final(self)@ == old(self)@ + encode_utf8(integer_text(v as int)),
            res is Ok,
    {
        push_decimal(&mut self.writer, v as u64);
        Ok(())
    }

    /// Writes the decimal text of the integer.
    pub fn serialize_u16(&mut self, v: u16) -> (res: Result<(), Error>)
        ensures
            final(self)@ == old(self)@ + encode_utf8(integer_text(v as int)),
            res is Ok,
    {
        push_decimal(&mut self.writer, v as u64);
        Ok(())
    }

    /// Writes the decimal text of the integer.
    pub fn serialize_u32(&mut self, v: u32) -> (res: Result<(), Error>)
        ensures
            final(self)@ == old(self)@ + encode_utf8(integer_text(v as int)),
            res is Ok,
    {
        push_decimal(&mut self.writer, v as u64);
        Ok(())
    }

    /// Writes the decimal text of the integer.
    pub fn serialize_u64(&mut self, v: u64) -> (res: Result<(), Error>)
        ensures
            final(self)@ == old(self)@ + encode_utf8(integer_text(v as int)),
            res is Ok,
    {
        push_decimal(&mut self.writer, v);
        Ok(())
    }

    /// Writes a single-precision number, of which the caller hands over the decimal text.
    pub fn serialize_f32(&mut self, text: &str) -> (res: Result<(), Error>)
        ensures
            final(self)@ == old(self)@ + encode_utf8(text@),
            res is Ok,
    {
        self.write_primitive(text);
        Ok(())
    }

    /// Writes a double-precision number, of which the caller hands over the decimal text.
    pub fn serialize_f64(&mut self, text: &str) -> (res: Result<(), Error>)
        ensures
            final(self)@ == old(self)@ + encode_utf8(text@),
            res is Ok,
    {
        self.write_primitive(text);
        Ok(())
    }

    /// Writes the character.
    pub fn serialize_char(&mut self, v: char) -> (res: Result<(), Error>)
        ensures
            final(self)@ == old(self)@ + encode_utf8(seq![v]),
            res is Ok,
    {
        push_char(&mut self.writer, v);
        Ok(())
    }

    /// Writes the string as it is: no character of it is escaped.
    pub fn serialize_str(&mut self, value: &str) -> (res: Result<(), Error>)
        ensures
            final(self)@ == old(self)@ + encode_utf8(value@),
            res is Ok,
    {
        self.write_primitive(value);
        Ok(())
    }

    /// Refuses raw bytes and writes nothing.
    pub fn serialize_bytes(&mut self, value: &[u8]) -> (res: Result<(), Error>)
        ensures
            final(self)@ == old(self)@,
            res == Err::<(), Error>(Error::UnsupportedShape(Shape::Bytes)),
    {
        Err(Error::UnsupportedShape(Shape::Bytes))
    }

    /// Writes nothing for an absent value.
    pub fn serialize_none(&mut self) -> (res: Result<(), Error>)
        ensures
            final(self)@ == old(self)@,
            res is Ok,
    {
        Ok(())
    }

    /// Writes nothing for the unit value.
    pub fn serialize_unit(&mut self) -> (res: Result<(), Error>)
        ensures
            final(self)@ == old(self)@,
            res is Ok,
    {
        self.serialize_none()
    }

    /// Writes the name of the variant as bare text; the enum's name and the index are not
    /// written.
    pub fn serialize_unit_variant(
        &mut self,
        name: &str,
        variant_index: u32,
        variant: &str,
    ) -> (res: Result<(), Error>)
        ensures
            final(self)@ == old(self)@ + encode_utf8(variant@),
            res is Ok,
    {
        self.write_primitive(variant);
        Ok(())
    }

    /// Writes `<tag>`, projects the value and, if nothing was refused, writes `</tag>`.
    fn write_wrapped(&mut self, tag: &str, value: &Value) -> (res: Result<(), Error>)
        ensures
            final(self)@ == old(self)@ + encode_utf8(value.projection().wrapped(tag@).text),
            value.projection().wrapped(tag@).ends_in(res),
        decreases value, 1nat,
    {
        proof {
            lemma_wrapped(old(self)@, value.projection(), tag@);
        }
        self.write_open_tag(tag);
        value.serialize(&mut *self)?;
        self.write_close_tag(tag);
        Ok(())
    }

    /// Projects the value of a present optional: the optional itself adds nothing.
    pub fn serialize_some(&mut self, value: &Value) -> (res: Result<(), Error>)
        ensures
            final(self)@ == old(self)@ + encode_utf8(value.projection().text),
            value.projection().ends_in(res),
        decreases value, 1nat,
    {
        value.serialize(self)
    }

    /// Writes the opening and the closing tag of `name` with nothing between them.
    pub fn serialize_unit_struct(&mut self, name: &str) -> (res: Result<(), Error>)
        ensures
            final(self)@ == old(self)@ + encode_utf8(
                Projection::written(Seq::empty()).wrapped(name@).text,
            ),
            res is Ok,
    {
        proof {
            lemma_wrapped(old(self)@, Projection::written(Seq::empty()), name@);
        }
        self.write_open_tag(name);
        self.write_close_tag(name);
        Ok(())
    }

    /// Projects the value between the tags of `name`.
    pub fn serialize_newtype_struct(&mut self, name: &str, value: &Value) -> (res: Result<
        (),
        Error,
    >)
        ensures
            final(self)@ == old(self)@ + encode_utf8(value.projection().wrapped(name@).text),
            value.projection().wrapped(name@).ends_in(res),
        decreases value, 2nat,
    {
        self.write_wrapped(name, value)
    }

    /// Projects the value between the tags of `variant`; the enum's name and the index are
    /// not written.
    pub fn serialize_newtype_variant(
        &mut self,
        name: &str,
        variant_index: u32,
        variant: &str,
        value: &Value,
    ) -> (res: Result<(), Error>)
        ensures
            final(self)@ == old(self)@ + encode_utf8(value.projection().wrapped(variant@).text),
            value.projection().wrapped(variant@).ends_in(res),
        decreases value, 2nat,
    {
        self.write_wrapped(variant, value)
    }

    /// Begins a sequence: nothing is written.
    pub fn serialize_seq<'w>(&'w mut self, len: Option<usize>) -> (res: Result<
        SeqSerializer<'w>,
        Error,
    >)
        ensures
            res is Ok,
            res->Ok_0.parent@ == old(self)@,
            *final(res->Ok_0.parent) == *final(self),
    {
        Ok(SeqSerializer::new(self))
    }

    /// Begins a tuple without a name: nothing is written.
    pub fn serialize_tuple<'w>(&'w mut self, len: usize) -> (res: Result<
        TupleSerializer<'w>,
        Error,
    >)
        ensures
            res is Ok,
            res->Ok_0.parent@ == old(self)@,
            res->Ok_0.name is None,
            *final(res->Ok_0.parent) == *final(self),
    {
        Ok(TupleSerializer::new(self))
    }

    /// Begins a tuple struct: writes the opening tag of `name`.
    pub fn serialize_tuple_struct<'w>(&'w mut self, name: &'w str, len: usize) -> (res: Result<
        TupleSerializer<'w>,
        Error,
    >)
        ensures
            res is Ok,
            res->Ok_0.parent@ == old(self)@ + encode_utf8(open_tag(name@)),
            res->Ok_0.name == Some(name),
            *final(res->Ok_0.parent) == *final(self),
    {
        self.write_open_tag(name);
        Ok(TupleSerializer::new_with_name(self, name))
    }

    /// Begins a tuple variant: writes the opening tag of `name`, the name of the enum.
    pub fn serialize_tuple_variant<'w>(
        &'w mut self,
        name: &'w str,
        variant_index: u32,
        variant: &'w str,
        len: usize,
    ) -> (res: Result<TupleSerializer<'w>, Error>)
        ensures
            res is Ok,
            res->Ok_0.parent@ == old(self)@ + encode_utf8(open_tag(name@)),
            res->Ok_0.name == Some(name),
            *final(res->Ok_0.parent) == *final(self),
    {
        self.write_open_tag(name);
        Ok(TupleSerializer::new_with_name(self, name))
    }

    /// Begins a mapping: nothing is written.
    pub fn serialize_map<'w>(&'w mut self, len: Option<usize>) -> (res: Result<
        MapSerializer<'w>,
        Error,
    >)
        ensures
            res is Ok,
            res->Ok_0.parent@ == old(self)@,
            *final(res->Ok_0.parent) == *final(self),
    {
        Ok(MapSerializer::new(self))
    }

    /// Begins a struct: writes the opening tag of `name`.
    pub fn serialize_struct<'w>(&'w mut self, name: &'w str, len: usize) -> (res: Result<
        StructSerializer<'w>,
        Error,
    >)
        ensures
            res is Ok,
            res->Ok_0.parent@ == old(self)@ + encode_utf8(open_tag(name@)),
            res->Ok_0.name == name,
            *final(res->Ok_0.parent) == *final(self),
    {
        self.write_open_tag(name);
        Ok(StructSerializer::new(self, name))
    }

    /// Begins a variant with named fields: writes the opening tag of `variant`.
    pub fn serialize_struct_variant<'w>(
        &'w mut self,
        name: &'w str,
        variant_index: u32,
        variant: &'w str,
        len: usize,
    ) -> (res: Result<StructSerializer<'w>, Error>)
        ensures
            res is Ok,
            res->Ok_0.parent@ == old(self)@ + encode_utf8(open_tag(variant@)),
            res->Ok_0.name == variant,
            *final(res->Ok_0.parent) == *final(self),
    {
        self.write_open_tag(variant);
        Ok(StructSerializer::new(self, variant))
    }
}

} // verus!

//! Walking a value: one notification to the serializer per shape, children in their order.

use vstd::prelude::*;
use vstd::utf8::encode_utf8;

use crate::error::Error;
use crate::projection::{
    lemma_elements_refused, lemma_elements_step, lemma_entries_refused, lemma_entries_step,
    lemma_fields_refused, lemma_fields_step, lemma_followed_by, lemma_wrapped,
};
use crate::ser::seq::SeqSerializer;
use crate::ser::tuples::TupleSerializer;
use crate::ser::var::{MapSerializer, StructSerializer};
use crate::ser::Serializer;
use crate::value::Value;

verus! {

impl Value {
    /// Projects the value into the serializer's sink.
    ///
    /// The text of `self.projection()` is appended to the sink, and the result tells whether
    /// a shape was refused, and which. After a refusal the sink holds what was written before
    /// it.
    pub fn serialize(&self, serializer: &mut Serializer) -> (res: Result<(), Error>)
        ensures
            final(serializer)@ == old(serializer)@ + encode_utf8(self.projection().text),
            self.projection().ends_in(res),
        decreases self, 0nat,
    {
        match self {
            Value::Bool(v) => serializer.serialize_bool(*v),
            Value::I8(v) => serializer.serialize_i8(*v),
            Value::I16(v) => serializer.serialize_i16(*v),
            Value::I32(v) => serializer.serialize_i32(*v),
            Value::I64(v) => serializer.serialize_i64(*v),
            Value::U8(v) => serializer.serialize_u8(*v),
            Value::U16(v) => serializer.serialize_u16(*v),
            Value::U32(v) => serializer.serialize_u32(*v),
            Value::U64(v) => serializer.serialize_u64(*v),
            Value::F32(v) => serializer.serialize_f32(v.as_str()),
            Value::F64(v) => serializer.serialize_f64(v.as_str()),
            Value::Char(v) => serializer.serialize_char(*v),
            Value::Str(v) => serializer.serialize_str(v.as_str()),
            Value::Bytes(v) => serializer.serialize_bytes(v.as_slice()),
            Value::Unit => serializer.serialize_unit(),
            Value::Optional(None) => serializer.serialize_none(),
            Value::Optional(Some(inner)) => serializer.serialize_some(inner),
            Value::UnitStruct { name } => serializer.serialize_unit_struct(name.as_str()),
            Value::UnitVariant { name, variant_index, variant } => {
                serializer.serialize_unit_variant(name.as_str(), *variant_index, variant.as_str())
            },
            Value::NewtypeStruct { name, value } => {
                serializer.serialize_newtype_struct(name.as_str(), value)
            },
            Value::NewtypeVariant { name, variant_index, variant, value } => {
                serializer.serialize_newtype_variant(
                    name.as_str(),
                    *variant_index,
                    variant.as_str(),
                    value,
                )
            },
            Value::Sequence(items) => {
                let mut seq = serializer.serialize_seq(Some(items.len()))?;
                serialize_elements(&mut seq, items)?;
                seq.end()
            },
            Value::Tuple(items) => {
                let mut tuple = serializer.serialize_tuple(items.len())?;
                serialize_positions(&mut tuple, items)?;
                tuple.end()
            },
            Value::TupleStruct { name, fields } => {
                proof {
                    lemma_wrapped(old(serializer)@, Value::elements(fields@), name@);
                }
                let mut tuple = serializer.serialize_tuple_struct(name.as_str(), fields.len())?;
                serialize_positions(&mut tuple, fields)?;
                tuple.end()
            },
            Value::TupleVariant { name, variant_index, variant, fields } => {
                proof {
                    lemma_wrapped(old(serializer)@, Value::elements(fields@), name@);
                }
                let mut tuple = serializer.serialize_tuple_variant(
                    name.as_str(),
                    *variant_index,
                    variant.as_str(),
                    fields.len(),
                )?;
                serialize_positions(&mut tuple, fields)?;
                tuple.end()
            },
            Value::Mapping(entries) => {
                let mut map = serializer.serialize_map(Some(entries.len()))?;
                serialize_entries(&mut map, entries)?;
                map.end()
            },
            Value::Struct { name, fields } => {
                proof {
                    lemma_wrapped(old(serializer)@, Value::fields(fields@), name@);
                }
                let mut st = serializer.serialize_struct(name.as_str(), fields.len())?;
                serialize_fields(&mut st, fields)?;
                st.end()
            },
            Value::StructVariant { name, variant_index, variant, fields } => {
                proof {
                    lemma_wrapped(old(serializer)@, Value::fields(fields@), variant@);
                }
                let mut st = serializer.serialize_struct_variant(
                    name.as_str(),
                    *variant_index,
                    variant.as_str(),
                    fields.len(),
                )?;
                serialize_fields(&mut st, fields)?;
                st.end()
            },
        }
    }

    /// Projects the value where only a token can stand, as the key of a mapping does. The
    /// text of a primitive or of a variant without payload is written; any other shape is
    /// refused and nothing is written.
    pub fn serialize_token(&self, serializer: &mut Serializer) -> (res: Result<(), Error>)
        ensures
            final(serializer)@ == old(serializer)@ + encode_utf8(self.token().text),
            self.token().ends_in(res),
        decreases self,
    {
        match self {
            Value::Bool(v) => serializer.serialize_bool(*v),
            Value::I8(v) => serializer.serialize_i8(*v),
            Value::I16(v) => serializer.serialize_i16(*v),
            Value::I32(v) => serializer.serialize_i32(*v),
            Value::I64(v) => serializer.serialize_i64(*v),
            Value::U8(v) => serializer.serialize_u8(*v),
            Value::U16(v) => serializer.serialize_u16(*v),
            Value::U32(v) => serializer.serialize_u32(*v),
            Value::U64(v) => serializer.serialize_u64(*v),
            Value::F32(v) => serializer.serialize_f32(v.as_str()),
            Value::F64(v) => serializer.serialize_f64(v.as_str()),
            Value::Char(v) => serializer.serialize_char(*v),
            Value::Str(v) => serializer.serialize_str(v.as_str()),
            Value::UnitVariant { name, variant_index, variant } => {
                serializer.serialize_unit_variant(name.as_str(), *variant_index, variant.as_str())
            },
            Value::Optional(Some(inner)) => inner.serialize_token(serializer),
            _ => Err(Error::UnsupportedShape(self.shape())),
        }
    }
}

/// Feeds the elements of a sequence to its projector, first to last.
fn serialize_elements(seq: &mut SeqSerializer, items: &Vec<Value>) -> (res: Result<(), Error>)
    ensures
        final(seq).parent@ == old(seq).parent@ + encode_utf8(Value::elements(items@).text),
        Value::elements(items@).ends_in(res),
        *final(final(seq).parent) == *final(old(seq).parent),
    decreases items, 0nat,
{
    let mut i: usize = 0;
    while i < items.len()
        invariant
            i <= items.len(),
            seq.parent@ == old(seq).parent@ + encode_utf8(
                Value::elements(items@.take(i as int)).text,
            ),
            Value::elements(items@.take(i as int)).refused is None,
            *final(seq.parent) == *final(old(seq).parent),
        decreases items.len() - i,
    {
        proof {
            lemma_elements_step(items@, i as int);
            lemma_followed_by(
                old(seq).parent@,
                Value::elements(items@.take(i as int)),
                items@[i as int].element(),
            );
        }
        match seq.serialize_element(&items[i]) {
            Ok(()) => {},
            Err(e) => {
                proof {
                    lemma_elements_refused(items@, i + 1);
                }
                return Err(e);
            },
        }
        i += 1;
    }
    assert(items@.take(i as int) =~= items@);
    Ok(())
}

/// Feeds the positions of a tuple to its projector, first to last.
fn serialize_positions(tuple: &mut TupleSerializer, items: &Vec<Value>) -> (res: Result<
    (),
    Error,
>)
    ensures
        final(tuple).parent@ == old(tuple).parent@ + encode_utf8(Value::elements(items@).text),
        Value::elements(items@).ends_in(res),
        final(tuple).name == old(tuple).name,
        *final(final(tuple).parent) == *final(old(tuple).parent),
    decreases items, 0nat,
{
    let mut i: usize = 0;
    while i < items.len()
        invariant
            i <= items.len(),
            tuple.parent@ == old(tuple).parent@ + encode_utf8(
                Value::elements(items@.take(i as int)).text,
            ),
            Value::elements(items@.take(i as int)).refused is None,
            tuple.name == old(tuple).name,
            *final(tuple.parent) == *final(old(tuple).parent),
        decreases items.len() - i,
    {
        proof {
            lemma_elements_step(items@, i as int);
            lemma_followed_by(
                old(tuple).parent@,
                Value::elements(items@.take(i as int)),
                items@[i as int].element(),
            );
        }
        match tuple.serialize_element(&items[i]) {
            Ok(()) => {},
            Err(e) => {
                proof {
                    lemma_elements_refused(items@, i + 1);
                }
                return Err(e);
            },
        }
        i += 1;
    }
    assert(items@.take(i as int) =~= items@);
    Ok(())
}

/// Feeds the fields of a struct to its projector, in the order of their declaration.
fn serialize_fields(st: &mut StructSerializer, fields: &Vec<(String, Value)>) -> (res: Result<
    (),
    Error,
>)
    ensures
        final(st).parent@ == old(st).parent@ + encode_utf8(Value::fields(fields@).text),
        Value::fields(fields@).ends_in(res),
        final(st).name == old(st).name,
        *final(final(st).parent) == *final(old(st).parent),
    decreases fields, 0nat,
{
    let mut i: usize = 0;
    while i < fields.len()
        invariant
            i <= fields.len(),
            st.parent@ == old(st).parent@ + encode_utf8(
                Value::fields(fields@.take(i as int)).text,
            ),
            Value::fields(fields@.take(i as int)).refused is None,
            st.name == old(st).name,
            *final(st.parent) == *final(old(st).parent),
        decreases fields.len() - i,
    {
        proof {
            lemma_fields_step(fields@, i as int);
            lemma_followed_by(
                old(st).parent@,
                Value::fields(fields@.take(i as int)),
                fields@[i as int].1.projection().wrapped(fields@[i as int].0@),
            );
        }
        match st.serialize_field(fields[i].0.as_str(), &fields[i].1) {
            Ok(()) => {},
            Err(e) => {
                proof {
                    lemma_fields_refused(fields@, i + 1);
                }
                return Err(e);
            },
        }
        i += 1;
    }
    assert(fields@.take(i as int) =~= fields@);
    Ok(())
}

/// Feeds the entries of a mapping to its projector, in their order.
fn serialize_entries(map: &mut MapSerializer, entries: &Vec<(Value, Value)>) -> (res: Result<
    (),
    Error,
>)
    ensures
        final(map).parent@ == old(map).parent@ + encode_utf8(Value::entries(entries@).text),
        Value::entries(entries@).ends_in(res),
        *final(final(map).parent) == *final(old(map).parent),
    decreases entries, 0nat,
{
    let mut i: usize = 0;
    while i < entries.len()
        invariant
            i <= entries.len(),
            map.parent@ == old(map).parent@ + encode_utf8(
                Value::entries(entries@.take(i as int)).text,
            ),
            Value::entries(entries@.take(i as int)).refused is None,
            *final(map.parent) == *final(old(map).parent),
        decreases entries.len() - i,
    {
        proof {
            lemma_entries_step(entries@, i as int);
            lemma_followed_by(
                old(map).parent@,
                Value::entries(entries@.take(i as int)),
                Value::entry(entries@[i as int].0, entries@[i as int].1),
            );
        }
        match map.serialize_entry(&entries[i].0, &entries[i].1) {
            Ok(()) => {},
            Err(e) => {
                proof {
                    lemma_entries_refused(entries@, i + 1);
                }
                return Err(e);
            },
        }
        i += 1;
    }
    assert(entries@.take(i as int) =~= entries@);
    Ok(())
}

} // verus!

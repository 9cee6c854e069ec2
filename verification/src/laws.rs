//! What holds of every projection.

use vstd::prelude::*;
use vstd::utf8::encode_utf8;

use crate::error::Error;
use crate::projection::{lemma_elements_refused, lemma_elements_step, Projection};
use crate::text::{
    bool_text, close_tag, decimal, integer_text, is_digit, numeral_value, open_tag,
};
use crate::value::Value;

verus! {

/// The decimal numeral of a number is canonical: it consists of digits only, it denotes the
/// number, and it begins with a zero only if the number is zero.
pub proof fn law_decimal_is_canonical(n: nat)
    ensures
        decimal(n).len() >= 1,
        forall|i: int| 0 <= i < decimal(n).len() ==> is_digit(#[trigger] decimal(n)[i]),
        numeral_value(decimal(n)) == n,
        decimal(n)[0] == '0' <==> n == 0,
    decreases n,
{
    if n < 10 {
        assert(numeral_value(decimal(n).drop_last()) == 0);
    } else {
        law_decimal_is_canonical(n / 10);
        assert(decimal(n).drop_last() =~= decimal(n / 10));
    }
}

/// Different integers have different texts.
pub proof fn law_integer_text_is_injective(a: int, b: int)
    requires
        integer_text(a) == integer_text(b),
    ensures
        a == b,
{
    law_decimal_is_canonical((if a < 0 { -a } else { a }) as nat);
    law_decimal_is_canonical((if b < 0 { -b } else { b }) as nat);
    if a < 0 && b < 0 {
        assert(decimal((-a) as nat) =~= integer_text(a).drop_first());
        assert(decimal((-b) as nat) =~= integer_text(b).drop_first());
    }
}

/// A primitive that stands alone is projected to its canonical text: nothing is refused,
/// and no tag surrounds the text.
pub proof fn law_primitive_alone(p: Value)
    requires
        p.shape_of().is_primitive(),
    ensures
        p.projection() == Projection::written(p.token_text()),
        p matches Value::Bool(v) ==> p.projection().text == bool_text(v),
        p matches Value::I8(v) ==> p.projection().text == integer_text(v as int),
        p matches Value::I16(v) ==> p.projection().text == integer_text(v as int),
        p matches Value::I32(v) ==> p.projection().text == integer_text(v as int),
        p matches Value::I64(v) ==> p.projection().text == integer_text(v as int),
        p matches Value::U8(v) ==> p.projection().text == integer_text(v as int),
        p matches Value::U16(v) ==> p.projection().text == integer_text(v as int),
        p matches Value::U32(v) ==> p.projection().text == integer_text(v as int),
        p matches Value::U64(v) ==> p.projection().text == integer_text(v as int),
        p matches Value::F32(v) ==> p.projection().text == v@,
        p matches Value::F64(v) ==> p.projection().text == v@,
        p matches Value::Char(v) ==> p.projection().text == seq![v],
        p matches Value::Str(v) ==> p.projection().text == v@,
    decreases p,
{
    match p {
        Value::Optional(Some(inner)) => {
            law_primitive_alone(*inner);
        },
        _ => {},
    }
}

/// A struct that holds one value is projected to the opening tag of its name, the
/// projection of the value and the closing tag, in this order; a variant that holds one value
/// likewise, under the name of the variant. If the value is refused, the closing tag is not
/// written.
pub proof fn law_newtype_wraps(name: String, variant_index: u32, variant: String, inner: Value)
    ensures
        (Value::NewtypeStruct { name, value: Box::new(inner) }).projection()
            == inner.projection().wrapped(name@),
        (Value::NewtypeVariant {
            name,
            variant_index,
            variant,
            value: Box::new(inner),
        }).projection() == inner.projection().wrapped(variant@),
        inner.projection().refused is None ==> inner.projection().wrapped(name@)
            == Projection::written(open_tag(name@) + inner.projection().text + close_tag(name@)),
        inner.projection().refused is Some ==> inner.projection().wrapped(name@) == (Projection {
            text: open_tag(name@) + inner.projection().text,
            refused: inner.projection().refused,
        }),
{
}

/// A mapping of two entries with string keys is projected to the first value between the
/// tags of the first key, followed by the second value between the tags of the second key.
pub proof fn law_mapping_keeps_order(
    entries: Vec<(Value, Value)>,
    k1: String,
    v1: Value,
    k2: String,
    v2: Value,
)
    requires
        entries@ == seq![(Value::Str(k1), v1), (Value::Str(k2), v2)],
    ensures
        Value::Mapping(entries).projection() == v1.projection().wrapped(k1@).followed_by(
            v2.projection().wrapped(k2@),
        ),
        v1.projection().refused is None && v2.projection().refused is None
            ==> Value::Mapping(entries).projection() == Projection::written(
            open_tag(k1@) + v1.projection().text + close_tag(k1@) + open_tag(k2@)
                + v2.projection().text + close_tag(k2@),
        ),
{
    let entries = entries@;
    let first = v1.projection().wrapped(k1@);
    let second = v2.projection().wrapped(k2@);
    assert(Value::entries(entries.drop_last().drop_last()) == Projection::written(Seq::empty()));
    assert(Value::entry(Value::Str(k1), v1) == first);
    assert(Value::entry(Value::Str(k2), v2) == second);
    assert(Value::entries(entries.drop_last()) == first);
    assert(Value::entries(entries) == first.followed_by(second));
    if v1.projection().refused is None && v2.projection().refused is None {
        assert(first.followed_by(second).text =~= open_tag(k1@) + v1.projection().text
            + close_tag(k1@) + open_tag(k2@) + v2.projection().text + close_tag(k2@));
    }
}

/// Projecting the same value into two sinks that hold the same bytes leaves the same bytes
/// in both and ends in the same way: nothing but the value and the sink decides the output.
pub proof fn law_same_value_same_output(
    value: Value,
    first_before: Seq<u8>,
    first_after: Seq<u8>,
    first_res: Result<(), Error>,
    second_before: Seq<u8>,
    second_after: Seq<u8>,
    second_res: Result<(), Error>,
)
    requires
        first_before == second_before,
        first_after == first_before + encode_utf8(value.projection().text),
        value.projection().ends_in(first_res),
        second_after == second_before + encode_utf8(value.projection().text),
        value.projection().ends_in(second_res),
    ensures
        first_after == second_after,
        first_res is Ok <==> second_res is Ok,
        first_res is Err ==> first_res->Err_0 == second_res->Err_0,
{
}

/// Elements of which one is a primitive are refused, whatever the other elements are.
pub proof fn law_primitive_element_refused(items: Seq<Value>, i: int)
    requires
        0 <= i < items.len(),
        items[i].shape_of().is_primitive(),
    ensures
        Value::elements(items).refused is Some,
{
    lemma_elements_step(items, i);
    lemma_elements_refused(items, i + 1);
}

/// A sequence, or a tuple without a name, that holds a primitive is refused, whatever its
/// other elements are: every result that its projection can end in is
/// `Error::UnsupportedShape`.
pub proof fn law_primitive_in_sequence_refused(items: Vec<Value>, i: int)
    requires
        0 <= i < items@.len(),
        items@[i].shape_of().is_primitive(),
    ensures
        Value::Sequence(items).projection().refused is Some,
        Value::Tuple(items).projection().refused is Some,
        forall|res: Result<(), Error>| #[trigger]
            Value::Sequence(items).projection().ends_in(res) ==> res matches Err(
                Error::UnsupportedShape(_),
            ),
        forall|res: Result<(), Error>| #[trigger]
            Value::Tuple(items).projection().ends_in(res) ==> res matches Err(
                Error::UnsupportedShape(_),
            ),
{
    law_primitive_element_refused(items@, i);
}

/// A tuple struct or a tuple variant that holds a primitive is refused as well: the one pair
/// of tags around the positions does not tell the positions apart.
pub proof fn law_primitive_in_named_tuple_refused(
    name: String,
    variant_index: u32,
    variant: String,
    fields: Vec<Value>,
    i: int,
)
    requires
        0 <= i < fields@.len(),
        fields@[i].shape_of().is_primitive(),
    ensures
        (Value::TupleStruct { name, fields }).projection().refused is Some,
        (Value::TupleVariant { name, variant_index, variant, fields }).projection().refused is Some,
{
    law_primitive_element_refused(fields@, i);
}

/// What was written is never taken back: the text of a projection stays a prefix of the text
/// of whatever follows it.
pub proof fn law_followed_by_keeps_prefix(first: Projection, next: Projection)
    ensures
        first.text.is_prefix_of(first.followed_by(next).text),
        first.refused is Some ==> first.followed_by(next) == first,
{
}

/// One projection after another is associative, and writing nothing is its unit.
pub proof fn law_followed_by_is_associative(a: Projection, b: Projection, c: Projection)
    ensures
        a.followed_by(b).followed_by(c) == a.followed_by(b.followed_by(c)),
        Projection::written(Seq::empty()).followed_by(a) == a,
        a.followed_by(Projection::written(Seq::empty())) == a,
{
    assert(a.followed_by(b).followed_by(c).text =~= a.followed_by(b.followed_by(c)).text);
}

/// The elements of two sequences laid end to end are projected as the elements of the first
/// followed by the elements of the second.
pub proof fn law_elements_concat(front: Seq<Value>, back: Seq<Value>)
    ensures
        Value::elements(front + back) == Value::elements(front).followed_by(
            Value::elements(back),
        ),
    decreases back.len(),
{
    if back.len() > 0 {
        assert((front + back).drop_last() =~= front + back.drop_last());
        law_elements_concat(front, back.drop_last());
        law_followed_by_is_associative(
            Value::elements(front),
            Value::elements(back.drop_last()),
            back.last().element(),
        );
    }
}

/// The fields of a struct are projected one after another: those of two runs of fields laid
/// end to end as the first run followed by the second.
pub proof fn law_fields_concat(front: Seq<(String, Value)>, back: Seq<(String, Value)>)
    ensures
        Value::fields(front + back) == Value::fields(front).followed_by(Value::fields(back)),
    decreases back.len(),
{
    if back.len() > 0 {
        assert((front + back).drop_last() =~= front + back.drop_last());
        law_fields_concat(front, back.drop_last());
        law_followed_by_is_associative(
            Value::fields(front),
            Value::fields(back.drop_last()),
            back.last().1.projection().wrapped(back.last().0@),
        );
    }
}

/// The entries of a mapping are projected in their order: those of two runs of entries laid
/// end to end as the first run followed by the second.
pub proof fn law_entries_concat(front: Seq<(Value, Value)>, back: Seq<(Value, Value)>)
    ensures
        Value::entries(front + back) == Value::entries(front).followed_by(Value::entries(back)),
    decreases back.len(),
{
    if back.len() > 0 {
        assert((front + back).drop_last() =~= front + back.drop_last());
        law_entries_concat(front, back.drop_last());
        law_followed_by_is_associative(
            Value::entries(front),
            Value::entries(back.drop_last()),
            Value::entry(back.last().0, back.last().1),
        );
    }
}

} // verus!

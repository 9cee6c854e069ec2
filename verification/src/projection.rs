//! What a projection yields, as a mathematical function of the value.

use vstd::prelude::*;
use vstd::utf8::encode_utf8;

use crate::error::Error;
use crate::text::{bool_text, close_tag, integer_text, lemma_encode_utf8_concat, open_tag};
use crate::value::{Shape, Value};

verus! {

/// The outcome of a projection: the text that reaches the sink, and the shape that was
/// refused, if one was. After a refusal nothing more is written, and what was written before
/// it stays.
pub struct Projection {
    pub text: Seq<char>,
    pub refused: Option<Shape>,
}

impl Projection {
    /// A text is written, and nothing is refused.
    pub open spec fn written(text: Seq<char>) -> Projection {
        Projection { text, refused: None }
    }

    /// A shape is refused before anything is written.
    pub open spec fn refusal(shape: Shape) -> Projection {
        Projection { text: Seq::empty(), refused: Some(shape) }
    }

    /// One projection after another: the second takes place only if the first refused
    /// nothing.
    pub open spec fn followed_by(self, next: Projection) -> Projection {
        if self.refused is Some {
            self
        } else {
            Projection { text: self.text + next.text, refused: next.refused }
        }
    }

    /// A projection between the opening and the closing tag of a name.
    pub open spec fn wrapped(self, name: Seq<char>) -> Projection {
        Projection::written(open_tag(name)).followed_by(self).followed_by(
            Projection::written(close_tag(name)),
        )
    }

    /// Whether a result tells how this projection ended: `Ok` if nothing was refused, else
    /// the error that names the refused shape.
    pub open spec fn ends_in(self, res: Result<(), Error>) -> bool {
        match res {
            Ok(_) => self.refused is None,
            Err(e) => self.refused is Some && e == Error::UnsupportedShape(self.refused->0),
        }
    }
}

impl Value {
    /// The text of a token: the canonical text of a primitive, the name of a variant without
    /// payload. Of anything else it is empty.
    pub open spec fn token_text(self) -> Seq<char>
        decreases self,
    {
        match self {
            Value::Bool(v) => bool_text(v),
            Value::I8(v) => integer_text(v as int),
            Value::I16(v) => integer_text(v as int),
            Value::I32(v) => integer_text(v as int),
            Value::I64(v) => integer_text(v as int),
            Value::U8(v) => integer_text(v as int),
            Value::U16(v) => integer_text(v as int),
            Value::U32(v) => integer_text(v as int),
            Value::U64(v) => integer_text(v as int),
            Value::F32(v) => v@,
            Value::F64(v) => v@,
            Value::Char(v) => seq![v],
            Value::Str(v) => v@,
            Value::UnitVariant { variant, .. } => variant@,
            Value::Optional(Some(inner)) => inner.token_text(),
            _ => Seq::empty(),
        }
    }

    /// The projection of a value where only a token can stand, as the key of a mapping does:
    /// its text, and a refusal of anything else.
    pub open spec fn token(self) -> Projection {
        if self.shape_of().is_token() {
            Projection::written(self.token_text())
        } else {
            Projection::refusal(self.shape_of())
        }
    }

    /// The projection of a value that stands alone or between the tags of a name.
    pub open spec fn projection(self) -> Projection
        decreases self, 0nat,
    {
        match self {
            Value::Bool(_)
            | Value::I8(_)
            | Value::I16(_)
            | Value::I32(_)
            | Value::I64(_)
            | Value::U8(_)
            | Value::U16(_)
            | Value::U32(_)
            | Value::U64(_)
            | Value::F32(_)
            | Value::F64(_)
            | Value::Char(_)
            | Value::Str(_) => Projection::written(self.token_text()),
            Value::Bytes(_) => Projection::refusal(Shape::Bytes),
            Value::Unit => Projection::written(Seq::empty()),
            Value::Optional(None) => Projection::written(Seq::empty()),
            Value::Optional(Some(inner)) => inner.projection(),
            Value::UnitStruct { name } => Projection::written(Seq::empty()).wrapped(name@),
            Value::UnitVariant { variant, .. } => Projection::written(variant@),
            Value::NewtypeStruct { name, value } => value.projection().wrapped(name@),
            Value::NewtypeVariant { variant, value, .. } => value.projection().wrapped(variant@),
            Value::Sequence(items) => Value::elements(items@),
            Value::Tuple(items) => Value::elements(items@),
            Value::TupleStruct { name, fields } => Value::elements(fields@).wrapped(name@),
            Value::TupleVariant { name, fields, .. } => Value::elements(fields@).wrapped(name@),
            Value::Mapping(entries) => Value::entries(entries@),
            Value::Struct { name, fields } => Value::fields(fields@).wrapped(name@),
            Value::StructVariant { variant, fields, .. } => Value::fields(fields@).wrapped(
                variant@,
            ),
        }
    }

    /// The projection of a value that is an element of a sequence or of a tuple. No name
    /// wraps it there, so a primitive is refused.
    pub open spec fn element(self) -> Projection
        decreases self, 1nat,
    {
        if self.shape_of().is_primitive() {
            Projection::refusal(self.shape_of())
        } else {
            self.projection()
        }
    }

    /// The projection of the elements of a sequence or of a tuple, one after another.
    pub open spec fn elements(items: Seq<Value>) -> Projection
        decreases items, 0nat,
    {
        if items.len() == 0 {
            Projection::written(Seq::empty())
        } else {
            Value::elements(items.drop_last()).followed_by(items.last().element())
        }
    }

    /// The projection of the fields of a struct: each between the tags of its name.
    pub open spec fn fields(items: Seq<(String, Value)>) -> Projection
        decreases items, 0nat,
    {
        if items.len() == 0 {
            Projection::written(Seq::empty())
        } else {
            Value::fields(items.drop_last()).followed_by(
                items.last().1.projection().wrapped(items.last().0@),
            )
        }
    }

    /// The projection of one entry of a mapping: the value between tags named by the text of
    /// its key. A key that is no token is refused before anything is written.
    pub open spec fn entry(key: Value, value: Value) -> Projection
        decreases value, 1nat,
    {
        if key.shape_of().is_token() {
            value.projection().wrapped(key.token_text())
        } else {
            Projection::refusal(key.shape_of())
        }
    }

    /// The projection of the entries of a mapping, one after another.
    pub open spec fn entries(items: Seq<(Value, Value)>) -> Projection
        decreases items, 0nat,
    {
        if items.len() == 0 {
            Projection::written(Seq::empty())
        } else {
            Value::entries(items.drop_last()).followed_by(
                Value::entry(items.last().0, items.last().1),
            )
        }
    }
}

/// The bytes that one projection after another leaves in a sink.
pub proof fn lemma_followed_by(sink: Seq<u8>, first: Projection, next: Projection)
    ensures
        first.refused is Some ==> first.followed_by(next) == first,
        first.refused is None ==> first.followed_by(next).refused == next.refused,
        first.refused is None ==> sink + encode_utf8(first.followed_by(next).text) == sink
            + encode_utf8(first.text) + encode_utf8(next.text),
{
    if first.refused is None {
        lemma_encode_utf8_concat(first.text, next.text);
    }
}

/// The bytes that a projection between tags leaves in a sink: the closing tag is written
/// only if nothing was refused.
pub proof fn lemma_wrapped(sink: Seq<u8>, inner: Projection, name: Seq<char>)
    ensures
        inner.wrapped(name).refused == inner.refused,
        inner.refused is Some ==> sink + encode_utf8(inner.wrapped(name).text) == sink
            + encode_utf8(open_tag(name)) + encode_utf8(inner.text),
        inner.refused is None ==> sink + encode_utf8(inner.wrapped(name).text) == sink
            + encode_utf8(open_tag(name)) + encode_utf8(inner.text) + encode_utf8(close_tag(name)),
{
    let opened = Projection::written(open_tag(name)).followed_by(inner);
    lemma_followed_by(sink, Projection::written(open_tag(name)), inner);
    lemma_followed_by(sink, opened, Projection::written(close_tag(name)));
}

/// The elements up to and including the one at `i` are those before it, followed by it.
pub proof fn lemma_elements_step(items: Seq<Value>, i: int)
    requires
        0 <= i < items.len(),
    ensures
        Value::elements(items.take(i + 1)) == Value::elements(items.take(i)).followed_by(
            items[i].element(),
        ),
{
    assert(items.take(i + 1).drop_last() =~= items.take(i));
}

/// Once an element is refused, the elements behind it change nothing.
pub proof fn lemma_elements_refused(items: Seq<Value>, i: int)
    requires
        0 <= i <= items.len(),
        Value::elements(items.take(i)).refused is Some,
    ensures
        Value::elements(items) == Value::elements(items.take(i)),
    decreases items.len() - i,
{
    if i == items.len() {
        assert(items.take(i) =~= items);
    } else {
        lemma_elements_step(items, i);
        lemma_elements_refused(items, i + 1);
    }
}

/// The fields up to and including the one at `i` are those before it, followed by it.
pub proof fn lemma_fields_step(items: Seq<(String, Value)>, i: int)
    requires
        0 <= i < items.len(),
    ensures
        Value::fields(items.take(i + 1)) == Value::fields(items.take(i)).followed_by(
            items[i].1.projection().wrapped(items[i].0@),
        ),
{
    assert(items.take(i + 1).drop_last() =~= items.take(i));
}

/// Once a field is refused, the fields behind it change nothing.
pub proof fn lemma_fields_refused(items: Seq<(String, Value)>, i: int)
    requires
        0 <= i <= items.len(),
        Value::fields(items.take(i)).refused is Some,
    ensures
        Value::fields(items) == Value::fields(items.take(i)),
    decreases items.len() - i,
{
    if i == items.len() {
        assert(items.take(i) =~= items);
    } else {
        lemma_fields_step(items, i);
        lemma_fields_refused(items, i + 1);
    }
}

/// The entries up to and including the one at `i` are those before it, followed by it.
pub proof fn lemma_entries_step(items: Seq<(Value, Value)>, i: int)
    requires
        0 <= i < items.len(),
    ensures
        Value::entries(items.take(i + 1)) == Value::entries(items.take(i)).followed_by(
            Value::entry(items[i].0, items[i].1),
        ),
{
    assert(items.take(i + 1).drop_last() =~= items.take(i));
}

/// Once an entry is refused, the entries behind it change nothing.
pub proof fn lemma_entries_refused(items: Seq<(Value, Value)>, i: int)
    requires
        0 <= i <= items.len(),
        Value::entries(items.take(i)).refused is Some,
    ensures
        Value::entries(items) == Value::entries(items.take(i)),
    decreases items.len() - i,
{
    if i == items.len() {
        assert(items.take(i) =~= items);
    } else {
        lemma_entries_step(items, i);
        lemma_entries_refused(items, i + 1);
    }
}

} // verus!

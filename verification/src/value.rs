//! The values that can be projected, and their shapes.

use vstd::prelude::*;

verus! {

/// The shape of a value, without what it holds.
#[derive(Debug, Clone, Copy, PartialEq, Eq, Structural)]
pub enum Shape {
    Bool,
    I8,
    I16,
    I32,
    I64,
    U8,
    U16,
    U32,
    U64,
    F32,
    F64,
    Char,
    Str,
    Bytes,
    Unit,
    Absent,
    UnitStruct,
    UnitVariant,
    NewtypeStruct,
    NewtypeVariant,
    Sequence,
    Tuple,
    TupleStruct,
    TupleVariant,
    Mapping,
    Struct,
    StructVariant,
}

/// A value to project.
///
/// An optional is transparent: a present value stands for what it holds, an absent one for
/// nothing at all.
#[derive(Debug, PartialEq, Eq)]
#[allow(inconsistent_fields)]
pub enum Value {
    Bool(bool),
    I8(i8),
    I16(i16),
    I32(i32),
    I64(i64),
    U8(u8),
    U16(u16),
    U32(u32),
    U64(u64),
    /// A single-precision number, given by its decimal text.
    F32(String),
    /// A double-precision number, given by its decimal text.
    F64(String),
    Char(char),
    Str(String),
    /// Raw bytes; no projection accepts them.
    Bytes(Vec<u8>),
    Unit,
    Optional(Option<Box<Value>>),
    /// A struct without fields.
    UnitStruct { name: String },
    /// A variant without payload, of the enum `name`.
    UnitVariant { name: String, variant_index: u32, variant: String },
    /// A struct that holds exactly one value.
    NewtypeStruct { name: String, value: Box<Value> },
    /// A variant that holds exactly one value.
    NewtypeVariant { name: String, variant_index: u32, variant: String, value: Box<Value> },
    Sequence(Vec<Value>),
    /// A tuple without a name.
    Tuple(Vec<Value>),
    TupleStruct { name: String, fields: Vec<Value> },
    TupleVariant { name: String, variant_index: u32, variant: String, fields: Vec<Value> },
    /// Pairs of key and value, in the order in which they are written.
    Mapping(Vec<(Value, Value)>),
    Struct { name: String, fields: Vec<(String, Value)> },
    StructVariant {
        name: String,
        variant_index: u32,
        variant: String,
        fields: Vec<(String, Value)>,
    },
}

impl Shape {
    /// A leaf with a text of its own: a boolean, a number, a character or a string.
    pub open spec fn is_primitive(self) -> bool {
        self is Bool || self is I8 || self is I16 || self is I32 || self is I64 || self is U8
            || self is U16 || self is U32 || self is U64 || self is F32 || self is F64
            || self is Char || self is Str
    }

    /// A shape that is written as one bare text: a primitive, or a variant without payload.
    pub open spec fn is_token(self) -> bool {
        self.is_primitive() || self is UnitVariant
    }

    /// Whether the shape is that of a primitive.
    pub fn primitive(self) -> (b: bool)
        ensures
            b == self.is_primitive(),
    {
        match self {
            Shape::Bool
            | Shape::I8
            | Shape::I16
            | Shape::I32
            | Shape::I64
            | Shape::U8
            | Shape::U16
            | Shape::U32
            | Shape::U64
            | Shape::F32
            | Shape::F64
            | Shape::Char
            | Shape::Str => true,
            _ => false,
        }
    }

    /// Whether the shape is that of a token.
    pub fn token(self) -> (b: bool)
        ensures
            b == self.is_token(),
    {
        match self {
            Shape::UnitVariant => true,
            _ => self.primitive(),
        }
    }
}

impl Value {
    /// The shape of the value; that of a present optional is the shape of what it holds.
    pub open spec fn shape_of(self) -> Shape
        decreases self,
    {
        match self {
            Value::Bool(_) => Shape::Bool,
            Value::I8(_) => Shape::I8,
            Value::I16(_) => Shape::I16,
            Value::I32(_) => Shape::I32,
            Value::I64(_) => Shape::I64,
            Value::U8(_) => Shape::U8,
            Value::U16(_) => Shape::U16,
            Value::U32(_) => Shape::U32,
            Value::U64(_) => Shape::U64,
            Value::F32(_) => Shape::F32,
            Value::F64(_) => Shape::F64,
            Value::Char(_) => Shape::Char,
            Value::Str(_) => Shape::Str,
            Value::Bytes(_) => Shape::Bytes,
            Value::Unit => Shape::Unit,
            Value::Optional(None) => Shape::Absent,
            Value::Optional(Some(inner)) => inner.shape_of(),
            Value::UnitStruct { .. } => Shape::UnitStruct,
            Value::UnitVariant { .. } => Shape::UnitVariant,
            Value::NewtypeStruct { .. } => Shape::NewtypeStruct,
            Value::NewtypeVariant { .. } => Shape::NewtypeVariant,
            Value::Sequence(_) => Shape::Sequence,
            Value::Tuple(_) => Shape::Tuple,
            Value::TupleStruct { .. } => Shape::TupleStruct,
            Value::TupleVariant { .. } => Shape::TupleVariant,
            Value::Mapping(_) => Shape::Mapping,
            Value::Struct { .. } => Shape::Struct,
            Value::StructVariant { .. } => Shape::StructVariant,
        }
    }

    /// Computes the shape of the value.
    pub fn shape(&self) -> (s: Shape)
        ensures
            s == self.shape_of(),
        decreases self,
    {
        match self {
            Value::Bool(_) => Shape::Bool,
            Value::I8(_) => Shape::I8,
            Value::I16(_) => Shape::I16,
            Value::I32(_) => Shape::I32,
            Value::I64(_) => Shape::I64,
            Value::U8(_) => Shape::U8,
            Value::U16(_) => Shape::U16,
            Value::U32(_) => Shape::U32,
            Value::U64(_) => Shape::U64,
            Value::F32(_) => Shape::F32,
            Value::F64(_) => Shape::F64,
            Value::Char(_) => Shape::Char,
            Value::Str(_) => Shape::Str,
            Value::Bytes(_) => Shape::Bytes,
            Value::Unit => Shape::Unit,
            Value::Optional(None) => Shape::Absent,
            Value::Optional(Some(inner)) => inner.shape(),
            Value::UnitStruct { .. } => Shape::UnitStruct,
            Value::UnitVariant { .. } => Shape::UnitVariant,
            Value::NewtypeStruct { .. } => Shape::NewtypeStruct,
            Value::NewtypeVariant { .. } => Shape::NewtypeVariant,
            Value::Sequence(_) => Shape::Sequence,
            Value::Tuple(_) => Shape::Tuple,
            Value::TupleStruct { .. } => Shape::TupleStruct,
            Value::TupleVariant { .. } => Shape::TupleVariant,
            Value::Mapping(_) => Shape::Mapping,
            Value::Struct { .. } => Shape::Struct,
            Value::StructVariant { .. } => Shape::StructVariant,
        }
    }
}

} // verus!

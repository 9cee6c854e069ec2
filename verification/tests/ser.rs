use serde_xml_rs::{to_string, MapSerializer, Serializer, StructSerializer, Value};

fn s(text: &str) -> String {
    text.to_string()
}

fn text(value: &str) -> Value {
    Value::Str(value.to_string())
}

fn unit_struct(name: &str) -> Value {
    Value::UnitStruct { name: name.to_string() }
}

fn newtype_struct(name: &str, value: Value) -> Value {
    Value::NewtypeStruct { name: name.to_string(), value: Box::new(value) }
}

fn newtype_variant(name: &str, variant_index: u32, variant: &str, value: Value) -> Value {
    Value::NewtypeVariant {
        name: name.to_string(),
        variant_index,
        variant: variant.to_string(),
        value: Box::new(value),
    }
}

fn unit_variant(name: &str, variant_index: u32, variant: &str) -> Value {
    Value::UnitVariant { name: name.to_string(), variant_index, variant: variant.to_string() }
}

#[test]
fn test_serialize_bool() {
    let inputs = vec![(true, "true"), (false, "false")];

    for (src, should_be) in inputs {
        let mut ser = Serializer::new(Vec::new());
        ser.serialize_bool(src).unwrap();

        let got = String::from_utf8(ser.into_inner()).unwrap();
        assert_eq!(got, should_be);
    }
}

#[test]
fn test_start_serialize_struct() {
    let mut ser = Serializer::new(Vec::new());
    {
        let _ = ser.serialize_struct("foo", 0).unwrap();
    }

    let got = String::from_utf8(ser.into_inner()).unwrap();
    assert_eq!(got, "<foo>");
}

#[test]
fn test_serialize_struct_field() {
    let mut ser = Serializer::new(Vec::new());
    {
        let mut struct_ser = StructSerializer::new(&mut ser, "baz");
        struct_ser.serialize_field("foo", &text("bar")).unwrap();
    }

    let got = String::from_utf8(ser.into_inner()).unwrap();
    assert_eq!(got, "<foo>bar</foo>");
}

#[test]
fn test_serialize_struct() {
    let bob = Value::Struct {
        name: s("Person"),
        fields: vec![(s("name"), text("Bob")), (s("age"), Value::U32(42))],
    };
    let should_be = "<Person><name>Bob</name><age>42</age></Person>";

    let mut ser = Serializer::new(Vec::new());
    bob.serialize(&mut ser).unwrap();

    let got = String::from_utf8(ser.into_inner()).unwrap();
    assert_eq!(got, should_be);
}

#[test]
fn test_serialize_map_entries() {
    let should_be = "<name>Bob</name><age>5</age>";
    let mut ser = Serializer::new(Vec::new());
    {
        let mut map = MapSerializer::new(&mut ser);
        map.serialize_entry(&text("name"), &text("Bob")).unwrap();
        map.serialize_entry(&text("age"), &text("5")).unwrap();
    }

    let got = String::from_utf8(ser.into_inner()).unwrap();
    assert_eq!(got, should_be);
}

#[test]
fn test_serialize_enum() {
    let should_be = "<Boolean>true</Boolean>";
    let mut ser = Serializer::new(Vec::new());

    let node = newtype_variant("Node", 0, "Boolean", Value::Bool(true));
    node.serialize(&mut ser).unwrap();

    let got = String::from_utf8(ser.into_inner()).unwrap();
    assert_eq!(got, should_be);
}

#[test]
fn serialize_a_list() {
    let inputs = Value::Sequence(vec![unit_struct("Foo"), unit_struct("Foo"), unit_struct("Foo")]);
    let should_be = "<Foo></Foo><Foo></Foo><Foo></Foo>";

    let got = to_string(&inputs).unwrap();
    assert_eq!(got, should_be);
}

#[test]
fn basic_newtype_struct() {
    let f = newtype_struct("Foo", Value::U32(5));
    let should_be = "<Foo>5</Foo>";

    let mut ser = Serializer::new(Vec::new());
    f.serialize(&mut ser).unwrap();

    let got = String::from_utf8(ser.into_inner()).unwrap();
    assert_eq!(got, should_be);
}

#[test]
fn option_as_a_newtype_struct() {
    let inputs = vec![
        (
            newtype_struct("Foo", Value::Optional(Some(Box::new(Value::U32(5))))),
            "<Foo>5</Foo>",
        ),
        (newtype_struct("Foo", Value::Optional(None)), "<Foo></Foo>"),
    ];

    for (input, should_be) in inputs {
        let mut ser = Serializer::new(Vec::new());
        input.serialize(&mut ser).unwrap();

        let got = String::from_utf8(ser.into_inner()).unwrap();
        assert_eq!(got, should_be);
    }
}

#[test]
fn newtype_wrapper_around_a_map() {
    let pairs = vec![(text("a"), Value::U32(5)), (text("hello"), Value::U32(42))];
    let map = newtype_struct("Foo", Value::Mapping(pairs));

    let should_be = "<Foo><a>5</a><hello>42</hello></Foo>";
    let mut ser = Serializer::new(Vec::new());

    map.serialize(&mut ser).unwrap();

    let got = String::from_utf8(ser.into_inner()).unwrap();
    assert_eq!(got, should_be);
}

#[test]
fn newtype_around_unit() {
    let should_be = "<Foo></Foo>";
    let f = newtype_struct("Foo", Value::Unit);

    let mut ser = Serializer::new(Vec::new());
    f.serialize(&mut ser).unwrap();

    let got = String::from_utf8(ser.into_inner()).unwrap();
    assert_eq!(got, should_be);
}

#[test]
fn serializing_a_list_of_primitives_is_an_error() {
    let dodgy = Value::Sequence(vec![
        Value::I32(1),
        Value::I32(2),
        Value::I32(3),
        Value::I32(4),
        Value::I32(5),
    ]);
    assert!(to_string(&dodgy).is_err());
}

#[test]
fn serializing_a_list_of_tuples_is_an_error() {
    let dodgy = Value::Sequence(vec![
        Value::Tuple(vec![Value::I32(1), Value::I32(2)]),
        Value::Tuple(vec![Value::I32(3), Value::I32(4)]),
    ]);

    assert!(to_string(&dodgy).is_err());
}

#[test]
fn serialize_list_of_newtype_enums() {
    let f = Value::Sequence(vec![
        newtype_variant("Foo", 0, "A", Value::U32(42)),
        newtype_variant("Foo", 1, "B", Value::Bool(true)),
        newtype_variant("Foo", 2, "C", newtype_variant("Foo", 1, "B", Value::Bool(false))),
    ]);
    let should_be = "<A>42</A><B>true</B><C><B>false</B></C>";

    let got = to_string(&f).unwrap();
    assert_eq!(got, should_be);
}

#[test]
fn serialize_tuple_containing_non_primitive_types() {
    let a = Value::Tuple(vec![unit_struct("Foo"), unit_struct("Bar")]);
    let should_be = "<Foo></Foo><Bar></Bar>";

    let got = to_string(&a).unwrap();
    assert_eq!(got, should_be);
}

#[test]
fn serialize_tuple_of_primitives_is_error() {
    let value = Value::Tuple(vec![Value::I32(5), Value::Bool(false)]);
    assert!(to_string(&value).is_err());
}

#[test]
fn serialize_tuple_with_at_least_1_primitive_is_error() {
    let value = Value::Tuple(vec![Value::I32(5), unit_struct("Foo")]);
    assert!(to_string(&value).is_err());
}

#[test]
fn serialize_a_tuple_struct_containing_no_primitives() {
    let f = Value::TupleStruct {
        name: s("Foo"),
        fields: vec![unit_struct("Bar"), newtype_struct("Baz", Value::U32(5))],
    };
    let should_be = "<Foo><Bar></Bar><Baz>5</Baz></Foo>";

    let got = to_string(&f).unwrap();
    assert_eq!(got, should_be);
}

#[test]
fn tuple_struct_cant_contain_primitives() {
    let f = Value::TupleStruct { name: s("Foo"), fields: vec![Value::U32(5), text("bar")] };
    assert!(to_string(&f).is_err());
}

#[test]
fn serialize_an_enum_with_a_unit_variant() {
    let f = unit_variant("Foo", 0, "A");
    let should_not_be = "<A></A>";
    let should_be = "A";

    let got = to_string(&f).unwrap();
    assert_ne!(got, should_not_be);
    assert_eq!(got, should_be);
}

#[test]
fn single_enum_ser() {
    let val = newtype_struct("StructTupleEnum", unit_variant("EnumWithVariants", 0, "A"));
    let expected = "<StructTupleEnum>A</StructTupleEnum>";
    let val_xml = to_string(&val).unwrap();
    assert_eq!(expected, val_xml);

    let val = Value::Struct {
        name: s("StructHoldingEnum"),
        fields: vec![(s("enum_here"), unit_variant("EnumWithVariants", 0, "A"))],
    };
    let expected = "<StructHoldingEnum><enum_here>A</enum_here></StructHoldingEnum>";
    let val_xml = to_string(&val).unwrap();
    assert_eq!(expected, val_xml);

    let val = Value::Struct {
        name: s("StructHoldingEnum"),
        fields: vec![(
            s("enum_here"),
            newtype_variant("EnumWithVariants", 1, "B", Value::U32(10)),
        )],
    };
    let expected = "<StructHoldingEnum><enum_here><B>10</B></enum_here></StructHoldingEnum>";
    let val_xml = to_string(&val).unwrap();
    assert_eq!(expected, val_xml);
}

#[test]
fn serialize_an_enum_with_a_tuple_variant_containing_primitives_is_error() {
    let f = Value::TupleVariant {
        name: s("Foo"),
        variant_index: 0,
        variant: s("A"),
        fields: vec![Value::U32(5), text("bar")],
    };
    assert!(to_string(&f).is_err());
}

#[test]
fn you_can_serialize_a_tuple_variant_containing_no_primitives() {
    let f = Value::TupleVariant {
        name: s("Foo"),
        variant_index: 0,
        variant: s("A"),
        fields: vec![unit_struct("Bar"), newtype_struct("Baz", Value::U32(5))],
    };
    let should_be = "<Foo><Bar></Bar><Baz>5</Baz></Foo>";

    let got = to_string(&f).unwrap();
    assert_eq!(got, should_be);
}

#[test]
fn serialize_a_struct_variant() {
    let f = Value::StructVariant {
        name: s("Foo"),
        variant_index: 0,
        variant: s("Bar"),
        fields: vec![(s("x"), Value::U32(5)), (s("y"), Value::U32(1))],
    };
    let should_be = "<Bar><x>5</x><y>1</y></Bar>";

    let got = to_string(&f).unwrap();
    assert_eq!(got, should_be);
}

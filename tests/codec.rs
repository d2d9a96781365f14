use db_enum::codec::{BackendKind, Codec, DecodeError, WireValue};
use db_enum::my_enum::{MyEnum, Simple};
use db_enum::naming::to_snake_case;
use db_enum::nullable::NullableCodec;
use db_enum::registry::{LookupError, Registry, RegistryError, VariantDecl};

fn decl(name: &str, rename: Option<&str>) -> VariantDecl {
    VariantDecl {
        name: name.to_string(),
        rename: rename.map(|r| r.to_string()),
    }
}

fn to_variant(v: usize) -> MyEnum {
    MyEnum::from_position(v).unwrap()
}

#[derive(Debug, PartialEq)]
struct Nullable {
    id: i32,
    my_enum: Option<MyEnum>,
}

#[derive(Debug, PartialEq)]
struct MaybeNullable {
    id: i32,
    my_enum: MyEnum,
}

#[test]
fn nullable_enum_round_trip() {
    let codec = NullableCodec::new(Codec::string_enum(MyEnum::registry()));
    let data = vec![
        Nullable {
            id: 1,
            my_enum: None,
        },
        Nullable {
            id: 2,
            my_enum: Some(MyEnum::Bar),
        },
    ];
    let mut table: Vec<(i32, Option<WireValue>)> = Vec::new();
    for row in &data {
        table.push((row.id, codec.encode(row.my_enum.map(|e| e.position()))));
    }
    let ct = table.len();
    assert_eq!(data.len(), ct);
    let items: Vec<Nullable> = table
        .iter()
        .map(|(id, w)| Nullable {
            id: *id,
            my_enum: codec.decode(w).unwrap().map(to_variant),
        })
        .collect();
    assert_eq!(data, items);
}

#[test]
fn not_nullable_enum_round_trip() {
    let codec = Codec::string_enum(MyEnum::registry());
    let data = vec![
        MaybeNullable {
            id: 1,
            my_enum: MyEnum::Foo,
        },
        MaybeNullable {
            id: 2,
            my_enum: MyEnum::BazQuxx,
        },
    ];
    let mut table: Vec<(i32, WireValue)> = Vec::new();
    for row in &data {
        table.push((row.id, codec.encode(row.my_enum.position())));
    }
    let ct = table.len();
    assert_eq!(data.len(), ct);
    let items: Vec<MaybeNullable> = table
        .iter()
        .map(|(id, w)| MaybeNullable {
            id: *id,
            my_enum: to_variant(codec.decode(w).unwrap()),
        })
        .collect();
    assert_eq!(data, items);
}

#[test]
fn round_trip() {
    let codec = Codec::native_enum(MyEnum::registry(), "my_enum");
    let this = Simple {
        id: 1,
        some_value: MyEnum::Foo,
    };
    let stored = (this.id, codec.encode(this.some_value.position()));
    let that = Simple {
        id: stored.0,
        some_value: to_variant(codec.decode(&stored.1).unwrap()),
    };
    assert_eq!(this, that);

    // a predicate over the column is keyed by the type's token
    let again = Codec::native_enum(MyEnum::registry(), "my_enum");
    assert!(codec.token() == again.token());
}

#[test]
fn default_naming_rule() {
    assert_eq!(to_snake_case("BazQuxx"), "baz_quxx");
    assert_eq!(to_snake_case("Foo"), "foo");
    assert_eq!(to_snake_case("already_snake"), "already_snake");
    assert_eq!(to_snake_case("HTTPCode"), "h_t_t_p_code");
    assert_eq!(to_snake_case(""), "");
}

#[test]
fn my_enum_wire_names() {
    let reg = MyEnum::registry();
    assert_eq!(reg.len(), 3);
    assert_eq!(reg.wire_names(), vec!["foo", "bar", "baz_quxx"]);
    assert_eq!(reg.enum_name(), "MyEnum");
    assert_eq!(reg.name_of(2), "baz_quxx");
    assert_eq!(reg.variant_of("bar"), Ok(1));
    assert_eq!(reg.variant_of("Bar"), Err(LookupError::UnknownVariant));
}

#[test]
fn override_replaces_default_name() {
    let reg = Registry::new("Shade", &vec![decl("DarkRed", Some("crimson")), decl("LightBlue", None)])
        .unwrap();
    assert_eq!(reg.wire_names(), vec!["crimson", "light_blue"]);
}

#[test]
fn duplicate_wire_name_is_rejected() {
    let r = Registry::new("Dup", &vec![decl("Foo", None), decl("Bar", None), decl("Other", Some("foo"))]);
    assert!(matches!(
        r,
        Err(RegistryError::DuplicateWireName { first: 0, second: 2 })
    ));
    let r = Registry::new("Dup", &vec![decl("FooBar", None), decl("Foo_bar", None)]);
    assert!(matches!(
        r,
        Err(RegistryError::DuplicateWireName { first: 0, second: 1 })
    ));
}

#[test]
fn empty_registry_is_accepted() {
    let reg = Registry::new("Nothing", &vec![]).unwrap();
    assert_eq!(reg.len(), 0);
    assert_eq!(reg.variant_of("foo"), Err(LookupError::UnknownVariant));
}

fn all_strategies() -> Vec<Codec> {
    vec![
        Codec::native_enum(MyEnum::registry(), "my_enum"),
        Codec::string_enum(MyEnum::registry()),
        Codec::constrained_text(MyEnum::registry()),
    ]
}

#[test]
fn every_strategy_round_trips() {
    for codec in &all_strategies() {
        for v in 0..3usize {
            let w = codec.encode(v);
            assert_eq!(w.kind, codec.kind());
            assert_eq!(codec.decode(&w), Ok(v));
        }
    }
}

#[test]
fn every_nullable_strategy_round_trips() {
    for codec in all_strategies() {
        let nullable = NullableCodec::new(codec);
        for e in [None, Some(0usize), Some(1), Some(2)] {
            let w = nullable.encode(e);
            assert_eq!(w.is_none(), e.is_none());
            assert_eq!(nullable.decode(&w), Ok(e));
        }
    }
}

#[test]
fn encode_writes_the_wire_name() {
    let codec = Codec::constrained_text(MyEnum::registry());
    let w = codec.encode(MyEnum::BazQuxx.position());
    assert_eq!(w.kind, BackendKind::ConstrainedText);
    assert_eq!(w.label, "baz_quxx");
}

#[test]
fn decode_drift_is_an_error() {
    let codec = Codec::native_enum(MyEnum::registry(), "my_enum");
    let w = WireValue {
        kind: BackendKind::NativeEnum,
        label: "qux".to_string(),
    };
    assert_eq!(codec.decode(&w), Err(DecodeError::UnknownWireName("qux".to_string())));
    let nullable = NullableCodec::new(Codec::native_enum(MyEnum::registry(), "my_enum"));
    assert_eq!(
        nullable.decode(&Some(w)),
        Err(DecodeError::UnknownWireName("qux".to_string()))
    );
    assert_eq!(nullable.decode(&None), Ok(None));
}

#[test]
fn decode_wrong_representation_is_an_error() {
    let codec = Codec::string_enum(MyEnum::registry());
    let w = WireValue {
        kind: BackendKind::NativeEnum,
        label: "foo".to_string(),
    };
    assert_eq!(codec.decode(&w), Err(DecodeError::WrongRepresentation));
}

#[test]
fn tokens_tell_types_and_strategies_apart() {
    let a = Codec::string_enum(MyEnum::registry()).token();
    let b = Codec::string_enum(MyEnum::registry()).token();
    assert!(a == b);
    let text = Codec::constrained_text(MyEnum::registry()).token();
    assert!(a != text);
    let other = Registry::new("Other", &MyEnum::declarations()).unwrap();
    assert!(a != Codec::string_enum(other).token());
    let native_a = Codec::native_enum(MyEnum::registry(), "my_enum").token();
    let native_b = Codec::native_enum(MyEnum::registry(), "other_enum").token();
    assert!(native_a != native_b);
}

#[test]
fn positions_follow_declared_order() {
    assert_eq!(MyEnum::Foo.position(), 0);
    assert_eq!(MyEnum::Bar.position(), 1);
    assert_eq!(MyEnum::BazQuxx.position(), 2);
    assert_eq!(MyEnum::from_position(1), Some(MyEnum::Bar));
    assert_eq!(MyEnum::from_position(3), None);
    let reg = MyEnum::registry();
    for e in [MyEnum::Foo, MyEnum::Bar, MyEnum::BazQuxx] {
        assert_eq!(reg.variant_of(&reg.name_of(e.position())), Ok(e.position()));
    }
}

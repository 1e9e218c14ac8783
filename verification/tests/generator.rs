use shori::by_field::{capitalize, generate_field, generate_parse_by_field};
use shori::capability::{kinds_in_order, CapabilitySet, ContainerKind};
use shori::catalog::{MethodRole, MethodSpec, Origin, Receiver, WrapperSpec};
use shori::conversions::Source;
use shori::parse::{definitions, expand, generate_parse, parser};
use shori::record::{
    add_traits_to_generics, introspect, Field, GenericKind, GenericParam, RecordDescription,
    ShapeError, TypeBody, TypeDefinition,
};
use shori::wrappers::{
    generate_parse_arc, generate_parse_bin, generate_parse_box, generate_parse_hash_map,
    generate_parse_json, generate_parse_mutex, generate_parse_once_cell, generate_parse_ref_cell,
    generate_parse_tokio_mutex, generate_parse_toml, generate_parse_unsafe_cell,
    generate_parse_vec, generate_wrapper,
};

fn field(name: &str, ty: &str) -> Field {
    Field { name: name.to_string(), ty: ty.to_string() }
}

fn definition(body: TypeBody) -> TypeDefinition {
    TypeDefinition { name: "User".to_string(), generics: Vec::new(), body }
}

fn user_definition() -> TypeDefinition {
    definition(TypeBody::Named(vec![
        field("id", "String"),
        field("name", "String"),
        field("age", "u8"),
    ]))
}

fn user_record() -> RecordDescription {
    introspect(user_definition()).unwrap()
}

fn names(methods: &[MethodSpec]) -> Vec<&str> {
    methods.iter().map(|method| method.name.as_str()).collect()
}

fn wrapper_names(wrappers: &[WrapperSpec]) -> Vec<&str> {
    wrappers.iter().map(|wrapper| wrapper.wrapper_name.as_str()).collect()
}

#[test]
fn introspect_accepts_a_struct_with_named_fields() {
    let record = user_record();
    assert_eq!(record.name(), "User");
    assert_eq!(record.field_count(), 3);
    assert_eq!(record.field(0).name, "id");
    assert_eq!(record.field(2).name, "age");
    assert_eq!(record.field(2).ty, "u8");
    assert!(record.generics().is_empty());
}

#[test]
fn introspect_refuses_an_enum() {
    assert_eq!(introspect(definition(TypeBody::Enum)).unwrap_err(), ShapeError::Enum);
}

#[test]
fn introspect_refuses_a_union() {
    assert_eq!(introspect(definition(TypeBody::Union)).unwrap_err(), ShapeError::Union);
}

#[test]
fn introspect_refuses_a_tuple_struct() {
    let body = TypeBody::Tuple(vec!["String".to_string(), "u8".to_string()]);
    assert_eq!(introspect(definition(body)).unwrap_err(), ShapeError::TupleStruct);
}

#[test]
fn introspect_refuses_a_unit_struct() {
    assert_eq!(introspect(definition(TypeBody::Unit)).unwrap_err(), ShapeError::UnitStruct);
}

#[test]
fn introspect_refuses_a_struct_without_fields() {
    let body = TypeBody::Named(Vec::new());
    assert_eq!(introspect(definition(body)).unwrap_err(), ShapeError::NoFields);
}

#[test]
fn introspect_refuses_a_repeated_field_name() {
    let body = TypeBody::Named(vec![field("id", "String"), field("age", "u8"), field("id", "u8")]);
    assert_eq!(introspect(definition(body)).unwrap_err(), ShapeError::DuplicateField);
}

#[test]
fn type_parameters_receive_the_added_bounds() {
    let mut def = user_definition();
    def.generics = vec![
        GenericParam { name: "'a".to_string(), kind: GenericKind::Lifetime, bounds: Vec::new() },
        GenericParam {
            name: "T".to_string(),
            kind: GenericKind::Type,
            bounds: vec!["Clone".to_string()],
        },
        GenericParam { name: "N".to_string(), kind: GenericKind::Const, bounds: Vec::new() },
    ];
    add_traits_to_generics(&mut def);
    assert_eq!(def.name, "User");
    assert_eq!(def.generics.len(), 3);
    assert!(def.generics[0].bounds.is_empty());
    assert_eq!(
        def.generics[1].bounds,
        vec![
            "Clone".to_string(),
            "::std::fmt::Debug".to_string(),
            "::serde::Serialize".to_string(),
            "for<'de> ::serde::Deserialize<'de>".to_string(),
        ]
    );
    assert!(def.generics[2].bounds.is_empty());
}

#[test]
fn kinds_are_listed_once_each() {
    let kinds = kinds_in_order();
    assert_eq!(kinds.len(), 12);
    for (i, first) in kinds.iter().enumerate() {
        for second in kinds.iter().skip(i + 1) {
            assert_ne!(first, second);
        }
    }
    assert_eq!(kinds[0], ContainerKind::Arc);
    assert_eq!(kinds[11], ContainerKind::OnceCell);
}

#[test]
fn kind_names_and_types() {
    assert_eq!(ContainerKind::Boxed.suffix_name(), "Box");
    assert_eq!(ContainerKind::Boxed.method_name(), "boxed");
    assert_eq!(ContainerKind::TokioMutex.method_name(), "tokio_mutex");
    assert_eq!(ContainerKind::Arc.apply("User"), "std::sync::Arc<User>");
    assert_eq!(ContainerKind::Mutex.apply("Box<User>"), "std::sync::Mutex<Box<User>>");
    assert_eq!(ContainerKind::TokioMutex.apply("User"), "tokio::sync::Mutex<User>");
    assert_eq!(ContainerKind::RefCell.apply("User"), "std::cell::RefCell<User>");
    assert_eq!(ContainerKind::UnsafeCell.apply("User"), "std::cell::UnsafeCell<User>");
    assert_eq!(ContainerKind::OnceCell.apply("User"), "std::cell::OnceCell<User>");
    assert_eq!(ContainerKind::Vec.apply("User"), "Vec<User>");
    assert_eq!(ContainerKind::Bin.apply("User"), "Vec<u8>");
    assert_eq!(ContainerKind::Json.apply("User"), "serde_json::Value");
    assert_eq!(ContainerKind::Toml.apply("User"), "toml::Value");
    assert_eq!(
        ContainerKind::HashMap.apply("User"),
        "std::collections::HashMap<String, Box<dyn std::any::Any + Send + Sync>>"
    );
    assert!(ContainerKind::Bin.serialized());
    assert!(ContainerKind::Toml.serialized());
    assert!(ContainerKind::Json.serialized());
    assert!(!ContainerKind::HashMap.serialized());
    assert!(!ContainerKind::Arc.serialized());
}

#[test]
fn capability_sets() {
    let none = CapabilitySet::none();
    let full = CapabilitySet::full();
    for kind in kinds_in_order() {
        assert!(!none.has(kind));
        assert!(full.has(kind));
    }
    assert!(!none.tuple && !none.argon2);
    assert!(full.tuple && full.argon2);
    let some = CapabilitySet { mutex: true, ..none };
    assert!(some.has(ContainerKind::Mutex));
    assert!(!some.has(ContainerKind::TokioMutex));
}

#[test]
fn the_arc_wrapper_converts_into_every_other_enabled_kind() {
    let wrapper = generate_parse_arc(&user_record(), &CapabilitySet::full());
    assert_eq!(wrapper.wrapper_name, "ParseArc");
    assert_eq!(wrapper.held_type, "std::sync::Arc<User>");
    assert_eq!(wrapper.origin, Origin::Container(ContainerKind::Arc));
    assert_eq!(wrapper.field, None);
    assert_eq!(
        names(&wrapper.methods),
        vec![
            "get",
            "tokio_mutex",
            "hashmap",
            "mutex",
            "boxed",
            "ref_cell",
            "bin",
            "toml",
            "json",
            "vec",
            "unsafe_cell",
            "once_cell"
        ]
    );
    let get = &wrapper.methods[0];
    assert_eq!(get.role, MethodRole::Accessor);
    assert_eq!(get.receiver, Receiver::Consumes);
    assert_eq!(get.returns, "std::sync::Arc<User>");
    assert!(!get.fallible);
    let boxed = &wrapper.methods[4];
    assert_eq!(boxed.role, MethodRole::Convert(ContainerKind::Boxed));
    assert_eq!(boxed.receiver, Receiver::Consumes);
    assert_eq!(boxed.returns, "Box<std::sync::Arc<User>>");
    assert!(!boxed.fallible);
    let json = &wrapper.methods[8];
    assert_eq!(json.returns, "serde_json::Value");
    assert!(json.fallible);
}

#[test]
fn what_get_hands_out() {
    let record = user_record();
    let caps = CapabilitySet::none();
    for kind in kinds_in_order() {
        let wrapper = generate_wrapper(kind, "User", &caps);
        let get = &wrapper.methods[0];
        assert_eq!(get.name, "get");
        assert!(!get.fallible);
        match kind {
            ContainerKind::HashMap => {
                assert_eq!(get.role, MethodRole::Lookup);
                assert_eq!(get.receiver, Receiver::Borrows);
                assert_eq!(get.returns, "Option<&T>");
            }
            ContainerKind::Bin => {
                assert_eq!(get.role, MethodRole::Accessor);
                assert_eq!(get.receiver, Receiver::Borrows);
                assert_eq!(get.returns, "&[u8]");
            }
            ContainerKind::Json => {
                assert_eq!(get.receiver, Receiver::Borrows);
                assert_eq!(get.returns, "&serde_json::Value");
            }
            ContainerKind::Toml => {
                assert_eq!(get.receiver, Receiver::Borrows);
                assert_eq!(get.returns, "&toml::Value");
            }
            ContainerKind::OnceCell => {
                assert_eq!(get.role, MethodRole::Accessor);
                assert_eq!(get.receiver, Receiver::Borrows);
                assert_eq!(get.returns, "Option<&User>");
            }
            _ => {
                assert_eq!(get.role, MethodRole::Accessor);
                assert_eq!(get.receiver, Receiver::Consumes);
                assert_eq!(get.returns, wrapper.held_type);
            }
        }
    }
    assert_eq!(generate_parse_once_cell(&record, &caps).methods[0].returns, "Option<&User>");
}

#[test]
fn what_a_method_takes() {
    let caps = CapabilitySet { argon2: true, ..CapabilitySet::none() };
    let taken = |method: &MethodSpec| -> Vec<(String, String)> {
        method.parameters.iter().map(|given| (given.name.clone(), given.ty.clone())).collect()
    };
    let pair = |name: &str, ty: &str| vec![(name.to_string(), ty.to_string())];
    let map = generate_parse_hash_map(&caps);
    assert_eq!(map.methods[0].generics, "T: 'static");
    assert_eq!(taken(&map.methods[0]), pair("key", "&str"));
    let bin = generate_parse_bin(&user_record(), &caps);
    assert_eq!(names(&bin.methods), vec!["get", "from", "from_bytes", "hex", "from_hex"]);
    assert!(taken(&bin.methods[0]).is_empty());
    assert!(taken(&bin.methods[1]).is_empty());
    assert_eq!(taken(&bin.methods[2]), pair("bytes", "&[u8]"));
    assert!(taken(&bin.methods[3]).is_empty());
    assert_eq!(taken(&bin.methods[4]), pair("hex_str", "&str"));
    let json = generate_parse_json(&user_record(), &caps);
    assert_eq!(taken(&json.methods[2]), pair("value", "&serde_json::Value"));
    let toml = generate_parse_toml(&user_record(), &caps);
    assert_eq!(taken(&toml.methods[2]), pair("value", "&toml::Value"));
    let catalog = generate_parse_by_field(&user_record(), &caps);
    let hash = catalog.fields[0].hash.as_ref().unwrap();
    assert_eq!(taken(&hash.methods[0]), pair("candidate", "&str"));
    for wrapper in [&map, &bin, &json, &toml] {
        assert!(!wrapper.public);
        for method in wrapper.methods.iter() {
            if method.role != MethodRole::Lookup {
                assert_eq!(method.generics, "");
            }
        }
    }
    assert!(catalog.selector.public);
    assert!(catalog.fields[0].inner.public);
    assert!(catalog.fields[0].outer.public);
    assert!(hash.public);
    assert!(!generate_parse(&user_record(), &caps).top.public);
    assert_eq!(shori::catalog::error_type_name(), "Box<dyn std::error::Error + Send + Sync>");
}

#[test]
fn which_conversions_return_a_result() {
    let caps = CapabilitySet::full();
    for own in kinds_in_order() {
        let held = own.apply("User");
        let source = Source::Wrapper(own, &held);
        for method in source.conversion_methods(&caps).iter() {
            let target = match method.role {
                MethodRole::Convert(target) => target,
                _ => unreachable!(),
            };
            let expected =
                target.serialized() || (target == ContainerKind::HashMap && own.serialized());
            assert_eq!(method.fallible, expected);
            assert_eq!(source.fails_into(target), expected);
        }
    }
    for method in Source::TopLevel("").conversion_methods(&caps).iter() {
        let target = match method.role {
            MethodRole::Convert(target) => target,
            _ => unreachable!(),
        };
        assert_eq!(method.fallible, target.serialized());
    }
}

#[test]
fn a_wrapper_gains_a_conversion_only_with_its_capability() {
    let none = CapabilitySet::none();
    let alone = generate_parse_arc(&user_record(), &CapabilitySet { arc: true, ..none });
    assert_eq!(names(&alone.methods), vec!["get"]);
    let with_box =
        generate_parse_arc(&user_record(), &CapabilitySet { arc: true, boxed: true, ..none });
    assert_eq!(names(&with_box.methods), vec!["get", "boxed"]);
    let mutex = generate_parse_mutex(
        &user_record(),
        &CapabilitySet { arc: true, mutex: true, oncecell: true, ..none },
    );
    assert_eq!(names(&mutex.methods), vec!["get", "arc", "once_cell"]);
    assert_eq!(mutex.methods[1].returns, "std::sync::Arc<std::sync::Mutex<User>>");
    assert_eq!(mutex.methods[2].returns, "std::cell::OnceCell<std::sync::Mutex<User>>");
}

#[test]
fn every_generator_names_its_wrapper() {
    let record = user_record();
    let caps = CapabilitySet::none();
    let wrappers = vec![
        generate_parse_arc(&record, &caps),
        generate_parse_tokio_mutex(&record, &caps),
        generate_parse_hash_map(&caps),
        generate_parse_mutex(&record, &caps),
        generate_parse_box(&record, &caps),
        generate_parse_ref_cell(&record, &caps),
        generate_parse_bin(&record, &caps),
        generate_parse_toml(&record, &caps),
        generate_parse_json(&record, &caps),
        generate_parse_vec(&record, &caps),
        generate_parse_unsafe_cell(&record, &caps),
        generate_parse_once_cell(&record, &caps),
    ];
    assert_eq!(
        wrapper_names(&wrappers),
        vec![
            "ParseArc",
            "ParseTokioMutex",
            "ParseHashMap",
            "ParseMutex",
            "ParseBox",
            "ParseRefCell",
            "ParseBin",
            "ParseToml",
            "ParseJson",
            "ParseVec",
            "ParseUnsafeCell",
            "ParseOnceCell"
        ]
    );
    for (wrapper, kind) in wrappers.iter().zip(kinds_in_order()) {
        assert_eq!(wrapper.origin, Origin::Container(kind));
        assert_eq!(wrapper.held_type, kind.apply("User"));
        let same = generate_wrapper(kind, "User", &caps);
        assert_eq!(same.wrapper_name, wrapper.wrapper_name);
        assert_eq!(names(&same.methods), names(&wrapper.methods));
    }
}

#[test]
fn the_binary_wrapper_reconstructs_and_goes_through_hex() {
    let caps = CapabilitySet { bincode: true, arc: true, ..CapabilitySet::none() };
    let wrapper = generate_parse_bin(&user_record(), &caps);
    assert_eq!(wrapper.held_type, "Vec<u8>");
    assert_eq!(names(&wrapper.methods), vec!["get", "arc", "from", "from_bytes", "hex", "from_hex"]);
    assert_eq!(wrapper.methods[0].receiver, Receiver::Borrows);
    assert_eq!(wrapper.methods[0].returns, "&[u8]");
    assert_eq!(wrapper.methods[1].returns, "std::sync::Arc<Vec<u8>>");
    let from = &wrapper.methods[2];
    assert_eq!(from.role, MethodRole::Reconstruct);
    assert_eq!(from.receiver, Receiver::Consumes);
    assert_eq!(from.returns, "User");
    assert!(from.fallible);
    let from_bytes = &wrapper.methods[3];
    assert_eq!(from_bytes.role, MethodRole::ReconstructFrom);
    assert_eq!(from_bytes.receiver, Receiver::Borrows);
    assert!(from_bytes.fallible);
    let hex = &wrapper.methods[4];
    assert_eq!(hex.role, MethodRole::HexEncode);
    assert_eq!(hex.returns, "String");
    assert!(!hex.fallible);
    let from_hex = &wrapper.methods[5];
    assert_eq!(from_hex.role, MethodRole::HexDecode);
    assert_eq!(from_hex.returns, "User");
    assert!(from_hex.fallible);
}

#[test]
fn the_value_wrappers_reconstruct_from_a_value() {
    let caps = CapabilitySet::none();
    let json = generate_parse_json(&user_record(), &caps);
    assert_eq!(names(&json.methods), vec!["get", "from", "from_value"]);
    let toml = generate_parse_toml(&user_record(), &caps);
    assert_eq!(names(&toml.methods), vec!["get", "from", "from_value"]);
    let boxed = generate_parse_box(&user_record(), &caps);
    assert_eq!(names(&boxed.methods), vec!["get"]);
}

#[test]
fn the_map_wrapper_looks_fields_up() {
    let wrapper = generate_parse_hash_map(&CapabilitySet::none());
    assert_eq!(names(&wrapper.methods), vec!["get"]);
    assert_eq!(wrapper.methods[0].role, MethodRole::Lookup);
    assert_eq!(wrapper.methods[0].receiver, Receiver::Borrows);
    assert_eq!(wrapper.methods[0].returns, "Option<&T>");
}

#[test]
fn conversions_carry_the_same_name_on_every_source() {
    let caps = CapabilitySet::full();
    let top = Source::TopLevel("").conversion_methods(&caps);
    let field = Source::Field("FieldId", "").conversion_methods(&caps);
    let wrapper = Source::Wrapper(ContainerKind::Vec, "Vec<User>").conversion_methods(&caps);
    assert_eq!(top.len(), 12);
    assert_eq!(field.len(), 12);
    assert_eq!(wrapper.len(), 11);
    assert_eq!(names(&top), names(&field));
    assert!(!names(&wrapper).contains(&"vec"));
    for method in wrapper.iter() {
        assert!(names(&top).contains(&method.name.as_str()));
        assert_eq!(method.receiver, Receiver::Consumes);
    }
    assert_eq!(top[0].returns, "ParseArc");
    assert_eq!(field[0].returns, "FieldIdArc");
    assert_eq!(wrapper[0].returns, "std::sync::Arc<Vec<User>>");
    assert!(Source::TopLevel("").offers_under(&caps, ContainerKind::Bin));
    assert!(!Source::TopLevel("").offers_under(&CapabilitySet::none(), ContainerKind::Bin));
    assert_eq!(Source::TopLevel("").returns_of(ContainerKind::Bin), "ParseBin");
}

#[test]
fn the_top_level_wrapper_leads_everywhere() {
    let parse = generate_parse(&user_record(), &CapabilitySet::full());
    assert_eq!(parse.top.wrapper_name, "Parse");
    assert_eq!(parse.top.held_type, "User");
    assert_eq!(parse.top.origin, Origin::TopLevel);
    assert_eq!(
        names(&parse.top.methods),
        vec![
            "field",
            "arc",
            "tokio_mutex",
            "hashmap",
            "mutex",
            "boxed",
            "ref_cell",
            "bin",
            "toml",
            "json",
            "vec",
            "unsafe_cell",
            "once_cell",
            "tuple"
        ]
    );
    assert_eq!(parse.top.methods[0].role, MethodRole::Fields);
    assert_eq!(parse.top.methods[0].returns, "FieldSelector");
    assert_eq!(parse.top.methods[1].returns, "ParseArc");
    assert_eq!(parse.top.methods[7].returns, "ParseBin");
    assert!(parse.top.methods[7].fallible);
    let tuple = &parse.top.methods[13];
    assert_eq!(tuple.role, MethodRole::Tuple);
    assert_eq!(tuple.receiver, Receiver::Borrows);
    assert_eq!(tuple.returns, "(&String, &String, &u8)");
    assert_eq!(parse.entry.record, "User");
    assert_eq!(parse.entry.method.name, "parse");
    assert_eq!(parse.entry.method.role, MethodRole::Entry);
    assert_eq!(parse.entry.method.receiver, Receiver::Consumes);
    assert_eq!(parse.entry.method.returns, "Parse");
}

#[test]
fn without_capabilities_only_the_selector_is_reached() {
    let parse = generate_parse(&user_record(), &CapabilitySet::none());
    assert_eq!(names(&parse.top.methods), vec!["field"]);
    let one = introspect(definition(TypeBody::Named(vec![field("id", "String")]))).unwrap();
    let caps = CapabilitySet { tuple: true, ..CapabilitySet::none() };
    let parse = generate_parse(&one, &caps);
    assert_eq!(names(&parse.top.methods), vec!["field", "tuple"]);
    assert_eq!(parse.top.methods[1].returns, "(&String)");
}

#[test]
fn the_selector_has_one_consuming_accessor_for_each_field() {
    let catalog = generate_parse_by_field(&user_record(), &CapabilitySet::none());
    assert_eq!(catalog.selector.wrapper_name, "FieldSelector");
    assert_eq!(catalog.selector.held_type, "Parse");
    assert_eq!(catalog.selector.origin, Origin::Selector);
    assert_eq!(names(&catalog.selector.methods), vec!["id", "name", "age"]);
    for (i, method) in catalog.selector.methods.iter().enumerate() {
        assert_eq!(method.role, MethodRole::Select(i));
        assert_eq!(method.receiver, Receiver::Consumes);
        assert!(!method.fallible);
    }
    assert_eq!(catalog.selector.methods[0].returns, "FieldId");
    assert_eq!(catalog.selector.methods[1].returns, "FieldName");
    assert_eq!(catalog.selector.methods[2].returns, "FieldAge");
}

#[test]
fn field_wrappers_are_named_after_the_capitalized_field() {
    let catalog = generate_parse_by_field(&user_record(), &CapabilitySet::full());
    assert_eq!(catalog.fields.len(), 3);
    let name = &catalog.fields[1];
    assert_eq!(name.inner.wrapper_name, "ParseUserName");
    assert_eq!(name.inner.held_type, "String");
    assert_eq!(name.inner.origin, Origin::FieldInner(1));
    assert_eq!(name.inner.field, Some("name".to_string()));
    assert!(name.inner.methods.is_empty());
    assert_eq!(name.outer.wrapper_name, "FieldName");
    assert_eq!(name.outer.held_type, "ParseUserName");
    assert_eq!(name.outer.origin, Origin::FieldOuter(1));
    assert_eq!(
        wrapper_names(&name.containers),
        vec![
            "FieldNameArc",
            "FieldNameTokioMutex",
            "FieldNameHashMap",
            "FieldNameMutex",
            "FieldNameBox",
            "FieldNameRefCell",
            "FieldNameBin",
            "FieldNameToml",
            "FieldNameJson",
            "FieldNameVec",
            "FieldNameUnsafeCell",
            "FieldNameOnceCell"
        ]
    );
    assert_eq!(name.containers[0].held_type, "std::sync::Arc<String>");
    assert_eq!(name.containers[0].origin, Origin::FieldContainer(1, ContainerKind::Arc));
    assert_eq!(name.containers[0].field, Some("name".to_string()));
    assert_eq!(name.containers[6].held_type, "Vec<u8>");
    let age = &catalog.fields[2];
    assert_eq!(age.containers[3].wrapper_name, "FieldAgeMutex");
    assert_eq!(age.containers[3].held_type, "std::sync::Mutex<u8>");
}

#[test]
fn only_text_fields_are_hashed() {
    let catalog = generate_parse_by_field(&user_record(), &CapabilitySet::full());
    let name = &catalog.fields[1];
    let hash = name.hash.as_ref().unwrap();
    assert_eq!(hash.wrapper_name, "FieldNameArgon2");
    assert_eq!(hash.held_type, "String");
    assert_eq!(hash.origin, Origin::FieldHash(1));
    assert_eq!(names(&hash.methods), vec!["verify"]);
    assert_eq!(hash.methods[0].role, MethodRole::Verify);
    assert_eq!(hash.methods[0].receiver, Receiver::Borrows);
    assert_eq!(hash.methods[0].returns, "bool");
    assert!(hash.methods[0].fallible);
    let hashing = name.outer.methods.last().unwrap();
    assert_eq!(hashing.name, "argon2_hash");
    assert_eq!(hashing.role, MethodRole::Hash);
    assert_eq!(hashing.returns, "FieldNameArgon2");
    assert!(hashing.fallible);
    assert_eq!(name.outer.methods.len(), 13);
    let age = &catalog.fields[2];
    assert!(age.hash.is_none());
    assert_eq!(age.outer.methods.len(), 12);
    assert!(!names(&age.outer.methods).contains(&"argon2_hash"));
}

#[test]
fn hashing_needs_its_capability() {
    let caps = CapabilitySet { argon2: false, ..CapabilitySet::full() };
    let catalog = generate_parse_by_field(&user_record(), &caps);
    for wrappers in catalog.fields.iter() {
        assert!(wrappers.hash.is_none());
        assert_eq!(wrappers.outer.methods.len(), 12);
    }
}

#[test]
fn what_counts_as_a_text_field() {
    let body = TypeBody::Named(vec![
        field("a", "String"),
        field("b", "std::string::String"),
        field("c", "Option<String>"),
        field("d", "&str"),
        field("e", "u8"),
        field("f", "not a type )"),
        field("g", " String "),
    ]);
    let record = introspect(definition(body)).unwrap();
    let caps = CapabilitySet { argon2: true, ..CapabilitySet::none() };
    let catalog = generate_parse_by_field(&record, &caps);
    let hashed: Vec<bool> = catalog.fields.iter().map(|wrappers| wrappers.hash.is_some()).collect();
    assert_eq!(hashed, vec![true, false, false, false, false, false, true]);
}

#[test]
fn capitalize_raises_the_first_character() {
    assert_eq!(capitalize("name"), "Name");
    assert_eq!(capitalize("user_id"), "User_id");
    assert_eq!(capitalize("Name"), "Name");
    assert_eq!(capitalize("x"), "X");
    assert_eq!(capitalize(""), "");
    assert_eq!(capitalize("_id"), "_id");
    assert_eq!(capitalize("\u{e9}tat"), "\u{c9}tat");
    assert_eq!(capitalize("\u{df}x"), "SSx");
}

#[test]
fn generate_field_takes_the_capital_and_the_text_flag() {
    let caps = CapabilitySet { arc: true, argon2: true, ..CapabilitySet::none() };
    let email = field("email", "String");
    let wrappers = generate_field("Account", "", 4, &email, "Email", true, &caps);
    assert_eq!(wrappers.inner.wrapper_name, "ParseAccountEmail");
    assert_eq!(wrappers.outer.wrapper_name, "FieldEmail");
    assert_eq!(names(&wrappers.outer.methods), vec!["arc", "argon2_hash"]);
    assert_eq!(wrapper_names(&wrappers.containers), vec!["FieldEmailArc"]);
    assert_eq!(wrappers.containers[0].origin, Origin::FieldContainer(4, ContainerKind::Arc));
    assert_eq!(wrappers.hash.unwrap().wrapper_name, "FieldEmailArgon2");
    let plain = generate_field("Account", "", 4, &email, "Email", false, &caps);
    assert_eq!(names(&plain.outer.methods), vec!["arc"]);
    assert!(plain.hash.is_none());
}

#[test]
fn the_expansion_holds_a_wrapper_for_each_enabled_kind() {
    let caps = CapabilitySet {
        mutex: true,
        arc: true,
        serde_json: true,
        ..CapabilitySet::none()
    };
    let emitted = expand(&user_record(), &caps);
    assert_eq!(wrapper_names(&emitted.wrappers), vec!["ParseArc", "ParseMutex", "ParseJson"]);
    assert_eq!(names(&emitted.parse.top.methods), vec!["field", "arc", "mutex", "json"]);
    assert_eq!(names(&emitted.wrappers[0].methods), vec!["get", "mutex", "json"]);
    assert_eq!(names(&emitted.wrappers[1].methods), vec!["get", "arc", "json"]);
    assert_eq!(
        names(&emitted.wrappers[2].methods),
        vec!["get", "arc", "mutex", "from", "from_value"]
    );
    for wrappers in emitted.parse.by_field.fields.iter() {
        assert_eq!(wrappers.containers.len(), 3);
        assert_eq!(names(&wrappers.outer.methods), vec!["arc", "mutex", "json"]);
    }
    let nothing = expand(&user_record(), &CapabilitySet::none());
    assert!(nothing.wrappers.is_empty());
    let everything = expand(&user_record(), &CapabilitySet::full());
    assert_eq!(everything.wrappers.len(), 12);
    for wrapper in everything.wrappers.iter() {
        let conversions = wrapper
            .methods
            .iter()
            .filter(|method| matches!(method.role, MethodRole::Convert(_)))
            .count();
        assert_eq!(conversions, 11);
    }
}

#[test]
fn parser_expands_a_record() {
    let mut def = user_definition();
    def.generics = vec![GenericParam {
        name: "T".to_string(),
        kind: GenericKind::Type,
        bounds: Vec::new(),
    }];
    let emitted = parser(def, &CapabilitySet::full()).unwrap();
    assert_eq!(emitted.wrappers.len(), 12);
    assert_eq!(emitted.parse.top.wrapper_name, "Parse");
    assert_eq!(emitted.parse.by_field.fields.len(), 3);
    assert_eq!(emitted.parse.entry.generics.len(), 1);
    assert_eq!(emitted.parse.entry.generics[0].name, "T");
    assert_eq!(emitted.parse.entry.generics[0].kind, GenericKind::Type);
    assert_eq!(
        emitted.parse.entry.generics[0].bounds,
        vec![
            "::std::fmt::Debug".to_string(),
            "::serde::Serialize".to_string(),
            "for<'de> ::serde::Deserialize<'de>".to_string(),
        ]
    );
}

#[test]
fn parser_refuses_what_is_no_record() {
    let caps = CapabilitySet::full();
    assert_eq!(parser(definition(TypeBody::Enum), &caps).unwrap_err(), ShapeError::Enum);
    assert_eq!(parser(definition(TypeBody::Unit), &caps).unwrap_err(), ShapeError::UnitStruct);
    assert_eq!(
        parser(definition(TypeBody::Tuple(vec!["u8".to_string()])), &caps).unwrap_err(),
        ShapeError::TupleStruct
    );
    assert_eq!(
        parser(definition(TypeBody::Named(Vec::new())), &caps).unwrap_err(),
        ShapeError::NoFields
    );
}

fn subset(bits: u32) -> CapabilitySet {
    CapabilitySet {
        arc: bits & 1 != 0,
        tokio: bits & 2 != 0,
        hashmap: bits & 4 != 0,
        mutex: bits & 8 != 0,
        boxed: bits & 16 != 0,
        refcell: bits & 32 != 0,
        bincode: bits & 64 != 0,
        toml: bits & 128 != 0,
        serde_json: bits & 256 != 0,
        vec: bits & 512 != 0,
        unsafecell: bits & 1024 != 0,
        oncecell: bits & 2048 != 0,
        tuple: bits & 4096 != 0,
        argon2: bits & 8192 != 0,
    }
}

#[test]
fn conversions_stay_within_the_enabled_set_for_every_subset() {
    let record = user_record();
    for bits in 0..4096u32 {
        let caps = subset(bits | (bits % 4) << 12);
        let enabled = kinds_in_order().iter().filter(|kind| caps.has(**kind)).count();
        let (flat, entry) = definitions(expand(&record, &caps));
        assert_eq!(entry.method.returns, flat[0].wrapper_name);
        let hashes = if caps.argon2 { 2 } else { 0 };
        assert_eq!(flat.len(), 2 + enabled + 3 * (2 + enabled) + hashes);
        let emitted: Vec<&str> = flat.iter().map(|wrapper| wrapper.wrapper_name.as_str()).collect();
        for wrapper in flat.iter() {
            let mut reached = 0;
            for method in wrapper.methods.iter() {
                if let MethodRole::Convert(target) = method.role {
                    reached += 1;
                    assert!(caps.has(target));
                    assert_eq!(method.name, target.method_name());
                    assert_eq!(method.receiver, Receiver::Consumes);
                    match wrapper.origin {
                        Origin::Container(own) => {
                            assert_ne!(own, target);
                            assert_eq!(method.returns, target.apply(&wrapper.held_type));
                        }
                        _ => assert!(emitted.contains(&method.returns.as_str())),
                    }
                }
            }
            match wrapper.origin {
                Origin::TopLevel | Origin::FieldOuter(_) => assert_eq!(reached, enabled),
                Origin::Container(own) => {
                    assert!(caps.has(own));
                    assert_eq!(reached, enabled - 1);
                }
                _ => assert_eq!(reached, 0),
            }
        }
    }
}

#[test]
fn the_flat_sequence_follows_the_expansion() {
    let caps = CapabilitySet { arc: true, bincode: true, argon2: true, ..CapabilitySet::none() };
    let (flat, entry) = definitions(expand(&user_record(), &caps));
    assert_eq!(
        wrapper_names(&flat),
        vec![
            "Parse",
            "ParseArc",
            "ParseBin",
            "FieldSelector",
            "ParseUserId",
            "FieldId",
            "FieldIdArc",
            "FieldIdBin",
            "FieldIdArgon2",
            "ParseUserName",
            "FieldName",
            "FieldNameArc",
            "FieldNameBin",
            "FieldNameArgon2",
            "ParseUserAge",
            "FieldAge",
            "FieldAgeArc",
            "FieldAgeBin"
        ]
    );
    assert_eq!(entry.record, "User");
    assert_eq!(entry.method.name, "parse");
}

#[test]
fn a_generic_record_carries_its_parameters_everywhere() {
    let mut def = definition(TypeBody::Named(vec![field("id", "T"), field("name", "String")]));
    def.name = "Pair".to_string();
    def.generics = vec![
        GenericParam { name: "'a".to_string(), kind: GenericKind::Lifetime, bounds: Vec::new() },
        GenericParam { name: "T".to_string(), kind: GenericKind::Type, bounds: Vec::new() },
    ];
    let caps = CapabilitySet { arc: true, bincode: true, argon2: true, ..CapabilitySet::none() };
    let emitted = parser(def, &caps).unwrap();
    let top = &emitted.parse.top;
    assert_eq!(top.wrapper_name, "Parse");
    assert_eq!(top.held_type, "Pair<'a, T>");
    assert_eq!(names(&top.methods), vec!["field", "arc", "bin"]);
    assert_eq!(top.methods[0].returns, "FieldSelector<'a, T>");
    assert_eq!(top.methods[1].returns, "ParseArc<'a, T>");
    assert_eq!(top.methods[2].returns, "ParseBin<'a, T>");
    assert_eq!(emitted.parse.entry.method.returns, "Parse<'a, T>");
    assert_eq!(emitted.parse.entry.generics.len(), 2);
    let arc = &emitted.wrappers[0];
    assert_eq!(arc.wrapper_name, "ParseArc");
    assert_eq!(arc.held_type, "std::sync::Arc<Pair<'a, T>>");
    assert_eq!(arc.methods[1].returns, "Vec<u8>");
    let bin = &emitted.wrappers[1];
    assert_eq!(bin.methods[1].returns, "std::sync::Arc<Vec<u8>>");
    assert_eq!(bin.methods[2].name, "from");
    assert_eq!(bin.methods[2].returns, "Pair<'a, T>");
    let selector = &emitted.parse.by_field.selector;
    assert_eq!(selector.held_type, "Parse<'a, T>");
    assert_eq!(selector.methods[0].returns, "FieldId<'a, T>");
    let name = &emitted.parse.by_field.fields[1];
    assert_eq!(name.inner.wrapper_name, "ParsePairName");
    assert_eq!(name.outer.held_type, "ParsePairName<'a, T>");
    assert_eq!(name.outer.methods[0].returns, "FieldNameArc<'a, T>");
    assert_eq!(name.outer.methods[2].returns, "FieldNameArgon2<'a, T>");
    assert_eq!(name.containers[0].wrapper_name, "FieldNameArc");
    let record = introspect(TypeDefinition {
        name: "Pair".to_string(),
        generics: vec![GenericParam {
            name: "T".to_string(),
            kind: GenericKind::Type,
            bounds: Vec::new(),
        }],
        body: TypeBody::Named(vec![field("id", "T")]),
    })
    .unwrap();
    assert_eq!(record.arguments(), "<T>");
    assert_eq!(record.type_text(), "Pair<T>");
    assert_eq!(user_record().arguments(), "");
    assert_eq!(user_record().type_text(), "User");
}

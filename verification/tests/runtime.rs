use shori::binary::{decode, BinError, ParseBin, MACHINE_LIMIT, SMALL_LIMIT};
use shori::credential::{
    hash_parameters, lanes, FieldArgon2, HashError, ITERATIONS, MEMORY_KIB, OUTPUT_LEN,
};
use shori::field_map::FieldValue;
use shori::forms::FormError;
use shori::tree::FieldError;
use shori::user::{User, UserField};

fn ann() -> User {
    User {
        id: "u1".to_string(),
        name: "Ann".to_string(),
        password: String::new(),
        email: String::new(),
        age: 30,
        gender: String::new(),
    }
}

fn john() -> User {
    User {
        id: "123e4567-e89b-12d3-a456-426614174000".to_string(),
        name: "John Doe".to_string(),
        password: "password123".to_string(),
        email: "johndoe@example.com".to_string(),
        age: 25,
        gender: "F".to_string(),
    }
}

#[test]
fn the_binary_form_holds_the_fields_in_order() {
    let wrapper = ann().parse().bin().unwrap();
    assert_eq!(wrapper.get(), &[2, 117, 49, 3, 65, 110, 110, 0, 0, 30, 0]);
    assert_eq!(wrapper.hex(), "02753103416e6e00001e00");
}

#[test]
fn binary_round_trip_through_hex() {
    for user in [ann(), john(), User::default()] {
        let wrapper = user.clone().parse().bin().unwrap();
        let text = wrapper.hex();
        assert_eq!(text.len(), 2 * wrapper.get().len());
        assert_eq!(wrapper.from_hex(&text).unwrap(), user);
        assert_eq!(wrapper.from_hex(&text.to_uppercase()).unwrap(), user);
        assert_eq!(decode(wrapper.get()).unwrap(), user);
        assert_eq!(wrapper.from().unwrap(), user);
    }
}

#[test]
fn hex_of_known_bytes() {
    let wrapper = ParseBin::from_encoding(Ok(vec![1, 2, 3, 15, 16, 255, 0, 171])).unwrap();
    assert_eq!(wrapper.hex(), "0102030f10ff00ab");
    let empty = ParseBin::from_encoding(Ok(Vec::new())).unwrap();
    assert_eq!(empty.hex(), "");
}

#[test]
fn malformed_hex_is_reported_before_decoding() {
    let wrapper = ann().parse().bin().unwrap();
    assert!(matches!(wrapper.from_hex("027"), Err(BinError::MalformedHex(_))));
    assert!(matches!(wrapper.from_hex("0g"), Err(BinError::MalformedHex(_))));
    assert!(matches!(wrapper.from_hex("02 7531"), Err(BinError::MalformedHex(_))));
    assert!(matches!(wrapper.from_hex("\u{e9}"), Err(BinError::MalformedHex(_))));
    assert!(matches!(wrapper.from_hex("zz"), Err(BinError::MalformedHex(_))));
}

#[test]
fn bytes_that_hold_no_record_are_a_decode_error() {
    let wrapper = ann().parse().bin().unwrap();
    assert!(matches!(wrapper.from_hex(""), Err(BinError::Decode(_))));
    assert!(matches!(wrapper.from_hex("0275"), Err(BinError::Decode(_))));
    assert!(matches!(wrapper.from_bytes(&[9, 1]), Err(BinError::Decode(_))));
    assert!(matches!(wrapper.from_bytes(&[1, 255, 0, 0, 0, 0, 0]), Err(BinError::Decode(_))));
    let truncated = ParseBin::from_encoding(Ok(vec![2, 117])).unwrap();
    assert!(matches!(truncated.from(), Err(BinError::Decode(_))));
}

#[test]
fn a_length_beyond_the_limit_is_a_decode_error() {
    let wrapper = ann().parse().bin().unwrap();
    assert!(matches!(wrapper.from_hex("fdffffffffffffffff"), Err(BinError::Decode(_))));
    assert!(matches!(
        wrapper.from_bytes(&[253, 255, 255, 255, 255, 255, 255, 255, 255]),
        Err(BinError::Decode(_))
    ));
    assert!(matches!(wrapper.from_bytes(&[252, 0, 0, 0, 128, 1, 2]), Err(BinError::Decode(_))));
    assert!(matches!(decode(&[251, 255, 255, 65]), Err(BinError::Decode(_))));
}

#[test]
fn a_record_of_any_length_is_read_back() {
    assert_eq!(SMALL_LIMIT, 16 * 1024 * 1024);
    assert_eq!(MACHINE_LIMIT, i32::MAX as usize);
    let mut user = ann();
    user.name = "n".repeat(SMALL_LIMIT - 100);
    let wrapper = user.clone().parse().bin().unwrap();
    assert_eq!(decode(wrapper.get()).unwrap(), user);
    user.name = "n".repeat(SMALL_LIMIT + 1);
    let wrapper = user.clone().parse().bin().unwrap();
    assert!(wrapper.get().len() > SMALL_LIMIT);
    assert_eq!(wrapper.from().unwrap(), user);
}

#[test]
fn the_bytes_of_a_text_stay_within_their_bound() {
    for text in ["", "a", "\u{e9}", "\u{10348}\u{10348}", "johndoe@example.com"] {
        let mut user = ann();
        user.email = text.to_string();
        let bytes = user.parse().field().email().bin().unwrap().0;
        assert!(bytes.len() <= 9 + 4 * text.chars().count());
        assert_eq!(bytes.len(), 1 + text.len());
    }
    let long = "x".repeat(300);
    let mut user = ann();
    user.email = long.clone();
    let bytes = user.parse().field().email().bin().unwrap().0;
    assert_eq!(bytes.len(), 3 + 300);
}

#[test]
fn the_bytes_of_a_field_decode_to_its_value() {
    let text = john().parse().field().email().bin().unwrap().0;
    let (read, used): (String, usize) =
        bincode::decode_from_slice(&text, bincode::config::standard()).unwrap();
    assert_eq!(read, "johndoe@example.com");
    assert_eq!(used, text.len());
    let byte = john().parse().field().age().bin().unwrap().0;
    let (read, used): (u8, usize) =
        bincode::decode_from_slice(&byte, bincode::config::standard()).unwrap();
    assert_eq!(read, 25);
    assert_eq!(used, 1);
}

#[test]
fn json_is_an_object_with_each_field() {
    let wrapper = john().parse().json().unwrap();
    let expected: serde_json::Value = serde_json::from_str(
        "{\"id\": \"123e4567-e89b-12d3-a456-426614174000\", \"name\": \"John Doe\", \
         \"password\": \"password123\", \"email\": \"johndoe@example.com\", \"age\": 25, \
         \"gender\": \"F\"}",
    )
    .unwrap();
    assert_eq!(wrapper.get(), &expected);
    assert_eq!(wrapper.from_value(&expected).unwrap(), john());
    assert_eq!(wrapper.from().unwrap(), john());
}

#[test]
fn json_that_lacks_a_field_is_a_decode_error() {
    let wrapper = ann().parse().json().unwrap();
    let lacking: serde_json::Value =
        serde_json::from_str("{\"id\": \"u1\", \"name\": \"Ann\", \"age\": 30}").unwrap();
    assert_eq!(
        wrapper.from_value(&lacking).unwrap_err(),
        FieldError::Missing(UserField::Password)
    );
    let empty: serde_json::Value = serde_json::from_str("{}").unwrap();
    assert_eq!(wrapper.from_value(&empty).unwrap_err(), FieldError::Missing(UserField::Id));
    let array: serde_json::Value = serde_json::from_str("[1, 2]").unwrap();
    assert_eq!(wrapper.from_value(&array).unwrap_err(), FieldError::Missing(UserField::Id));
    let no_gender: serde_json::Value = serde_json::from_str(
        "{\"id\": \"\", \"name\": \"\", \"password\": \"\", \"email\": \"\", \"age\": 1}",
    )
    .unwrap();
    assert_eq!(
        wrapper.from_value(&no_gender).unwrap_err(),
        FieldError::Missing(UserField::Gender)
    );
}

#[test]
fn json_of_another_type_is_a_decode_error() {
    let wrapper = ann().parse().json().unwrap();
    let large = "{\"id\": \"\", \"name\": \"\", \"password\": \"\", \"email\": \"\", \
                 \"age\": 256, \"gender\": \"\"}";
    let value: serde_json::Value = serde_json::from_str(large).unwrap();
    assert_eq!(wrapper.from_value(&value).unwrap_err(), FieldError::WrongType(UserField::Age));
    let negative = large.replace("256", "-1");
    let value: serde_json::Value = serde_json::from_str(&negative).unwrap();
    assert_eq!(wrapper.from_value(&value).unwrap_err(), FieldError::WrongType(UserField::Age));
    let text = large.replace("256", "\"30\"");
    let value: serde_json::Value = serde_json::from_str(&text).unwrap();
    assert_eq!(wrapper.from_value(&value).unwrap_err(), FieldError::WrongType(UserField::Age));
    let fraction = large.replace("256", "30.0");
    let value: serde_json::Value = serde_json::from_str(&fraction).unwrap();
    assert_eq!(wrapper.from_value(&value).unwrap_err(), FieldError::WrongType(UserField::Age));
    let number = "{\"id\": 7, \"name\": \"\"}";
    let value: serde_json::Value = serde_json::from_str(number).unwrap();
    assert_eq!(wrapper.from_value(&value).unwrap_err(), FieldError::WrongType(UserField::Id));
    let top = large.replace("256", "255");
    let value: serde_json::Value = serde_json::from_str(&top).unwrap();
    assert_eq!(wrapper.from_value(&value).unwrap().age, 255);
}

#[test]
fn json_ignores_what_it_does_not_know() {
    let wrapper = ann().parse().json().unwrap();
    let mut value = wrapper.get().clone();
    value["extra"] = serde_json::Value::from(true);
    assert_eq!(wrapper.from_value(&value).unwrap(), ann());
}

#[test]
fn structured_text_is_a_table_with_each_field() {
    let wrapper = john().parse().toml().unwrap();
    let expected: toml::Value = toml::from_str(
        "id = \"123e4567-e89b-12d3-a456-426614174000\"\nname = \"John Doe\"\n\
         password = \"password123\"\nemail = \"johndoe@example.com\"\nage = 25\ngender = \"F\"\n",
    )
    .unwrap();
    assert_eq!(wrapper.get(), &expected);
    assert_eq!(wrapper.from_value(&expected).unwrap(), john());
    assert_eq!(wrapper.from().unwrap(), john());
}

#[test]
fn structured_text_that_does_not_fit_is_a_decode_error() {
    let wrapper = ann().parse().toml().unwrap();
    let lacking: toml::Value = toml::from_str("id = \"u1\"\nname = \"Ann\"\n").unwrap();
    assert_eq!(
        wrapper.from_value(&lacking).unwrap_err(),
        FieldError::Missing(UserField::Password)
    );
    let base = "id = \"\"\nname = \"\"\npassword = \"\"\nemail = \"\"\ngender = \"\"\n";
    let large: toml::Value = toml::from_str(&format!("{}age = 256\n", base)).unwrap();
    assert_eq!(wrapper.from_value(&large).unwrap_err(), FieldError::WrongType(UserField::Age));
    let negative: toml::Value = toml::from_str(&format!("{}age = -1\n", base)).unwrap();
    assert_eq!(
        wrapper.from_value(&negative).unwrap_err(),
        FieldError::WrongType(UserField::Age)
    );
    let text: toml::Value = toml::from_str(&format!("{}age = \"1\"\n", base)).unwrap();
    assert_eq!(wrapper.from_value(&text).unwrap_err(), FieldError::WrongType(UserField::Age));
    let fraction: toml::Value = toml::from_str(&format!("{}age = 30.0\n", base)).unwrap();
    assert_eq!(
        wrapper.from_value(&fraction).unwrap_err(),
        FieldError::WrongType(UserField::Age)
    );
    let scalar = toml::Value::from("u1");
    assert_eq!(wrapper.from_value(&scalar).unwrap_err(), FieldError::Missing(UserField::Id));
    let fits: toml::Value = toml::from_str(&format!("{}age = 0\n", base)).unwrap();
    assert_eq!(wrapper.from_value(&fits).unwrap().age, 0);
}

#[test]
fn the_map_gives_nothing_for_another_type_or_key() {
    let map = john().parse().hashmap();
    assert_eq!(map.get::<String>("name"), Some(&"John Doe".to_string()));
    assert_eq!(map.get::<u8>("age"), Some(&25));
    assert_eq!(map.get::<u8>("name"), None);
    assert_eq!(map.get::<String>("age"), None);
    assert_eq!(map.get::<String>("nickname"), None);
    assert_eq!(map.get::<u8>(""), None);
    let held = map.boxed();
    assert_eq!(held.len(), 6);
    assert_eq!(held.get("age"), Some(&FieldValue::Byte(25)));
    assert_eq!(held.get("id"), Some(&FieldValue::Text(john().id)));
}

#[test]
fn field_names() {
    assert_eq!(UserField::Id.name(), "id");
    assert_eq!(UserField::Name.name(), "name");
    assert_eq!(UserField::Password.name(), "password");
    assert_eq!(UserField::Email.name(), "email");
    assert_eq!(UserField::Age.name(), "age");
    assert_eq!(UserField::Gender.name(), "gender");
}

#[test]
fn the_selector_moves_one_field_out() {
    let name = john().parse().field().name();
    assert_eq!(name.0.field, UserField::Name);
    assert_eq!(name.0.value, "John Doe");
    let age = john().parse().field().age();
    assert_eq!(age.0.field, UserField::Age);
    assert_eq!(age.0.value, 25);
    assert_eq!(john().parse().field().id().0.value, "123e4567-e89b-12d3-a456-426614174000");
    assert_eq!(john().parse().field().password().0.value, "password123");
    assert_eq!(john().parse().field().email().0.value, "johndoe@example.com");
    assert_eq!(john().parse().field().gender().0.value, "F");
    assert_eq!(john().parse().field().gender().0.field, UserField::Gender);
}

#[test]
fn a_field_goes_into_every_container() {
    assert_eq!(*john().parse().field().name().arc().0, "John Doe");
    assert_eq!(*john().parse().field().age().boxed().0, 25);
    assert_eq!(john().parse().field().email().vec().0, vec!["johndoe@example.com".to_string()]);
    assert_eq!(*john().parse().field().name().mutex().0.lock().unwrap(), "John Doe");
    assert_eq!(*john().parse().field().age().tokio_mutex().0.try_lock().unwrap(), 25);
    assert_eq!(*john().parse().field().name().ref_cell().0.borrow(), "John Doe");
    assert_eq!(john().parse().field().age().unsafe_cell().0.into_inner(), 25);
    assert_eq!(john().parse().field().name().once_cell().0.get().unwrap(), "John Doe");
}

#[test]
fn a_field_has_its_serialized_forms() {
    assert_eq!(ann().parse().field().name().bin().unwrap().0, vec![3, 65, 110, 110]);
    assert_eq!(ann().parse().field().age().bin().unwrap().0, vec![30]);
    assert_eq!(ann().parse().field().name().json().unwrap().0, serde_json::Value::from("Ann"));
    assert_eq!(ann().parse().field().age().json().unwrap().0, serde_json::Value::from(30));
    assert_eq!(ann().parse().field().name().toml().unwrap().0, toml::Value::from("Ann"));
    assert_eq!(ann().parse().field().age().toml().unwrap().0, toml::Value::from(30));
    let name = ann().parse().field().name().hashmap().0;
    assert_eq!(name.len(), 1);
    assert_eq!(name.get("name"), Some(&FieldValue::Text("Ann".to_string())));
    let age = ann().parse().field().age().hashmap().0;
    assert_eq!(age.len(), 1);
    assert_eq!(age.get("age"), Some(&FieldValue::Byte(30)));
}

#[test]
fn wrappers_go_into_other_containers() {
    let shared = john().parse().boxed().arc();
    assert_eq!(shared.name, "John Doe");
    let boxed = john().parse().arc().boxed();
    assert_eq!(boxed.age, 25);
    let list = john().parse().arc().vec();
    assert_eq!(list.len(), 1);
    assert_eq!(list[0].email, "johndoe@example.com");
    let cell = john().parse().vec().ref_cell();
    assert_eq!(cell.borrow()[0].name, "John Doe");
    let nested = john().parse().ref_cell().mutex();
    assert_eq!(nested.lock().unwrap().borrow().name, "John Doe");
    let once = john().parse().mutex().once_cell();
    assert_eq!(once.get().unwrap().lock().unwrap().name, "John Doe");
    let bytes = ann().parse().bin().unwrap().arc();
    assert_eq!(bytes.len(), 11);
    let value = ann().parse().json().unwrap().boxed();
    assert_eq!(value["name"], "Ann");
    let table = ann().parse().toml().unwrap().unsafe_cell().into_inner();
    assert_eq!(table["age"].as_integer(), Some(30));
    let inner = john().parse().once_cell().boxed();
    assert_eq!(inner.get().unwrap().gender, "F");
    let guarded = john().parse().unsafe_cell().arc();
    assert!(std::sync::Arc::strong_count(&guarded) == 1);
    let waiting = john().parse().tokio_mutex().boxed();
    assert_eq!(waiting.try_lock().unwrap().name, "John Doe");
}

#[test]
fn a_mutation_under_the_lock_is_seen_by_every_observer() {
    let shared = ann().parse().mutex().arc();
    let first = std::sync::Arc::clone(&shared);
    let second = std::sync::Arc::clone(&shared);
    {
        let mut locked = shared.lock().unwrap();
        locked.name = "Bea".to_string();
    }
    assert_eq!(first.lock().unwrap().name, "Bea");
    assert_eq!(second.lock().unwrap().name, "Bea");
    assert_eq!(first.lock().unwrap().id, "u1");
    assert_eq!(second.lock().unwrap().age, 30);
}

#[test]
fn lanes_follow_the_hardware_up_to_four() {
    assert_eq!(lanes(None), 1);
    assert_eq!(lanes(Some(0)), 1);
    assert_eq!(lanes(Some(1)), 1);
    assert_eq!(lanes(Some(3)), 3);
    assert_eq!(lanes(Some(4)), 4);
    assert_eq!(lanes(Some(5)), 4);
    assert_eq!(lanes(Some(usize::MAX)), 4);
}

#[test]
fn the_parameter_set_is_fixed_but_for_the_lanes() {
    assert_eq!(hash_parameters(None), (65_536, 3, 1, 32));
    assert_eq!(hash_parameters(Some(2)), (MEMORY_KIB, ITERATIONS, 2, OUTPUT_LEN));
    assert_eq!(hash_parameters(Some(64)), (65_536, 3, 4, 32));
}

#[test]
fn the_stored_text_holds_the_salt_and_the_parameters() {
    let stored = john()
        .parse()
        .field()
        .password()
        .argon2_hash_with_salt("c29tZXNhbHQ", Some(2))
        .unwrap();
    assert!(stored.0.starts_with("$argon2id$v=19$m=65536,t=3,p=2$c29tZXNhbHQ$"));
    let output = stored.0.rsplit('$').next().unwrap();
    assert_eq!(output.len(), 43);
    assert_eq!(stored.verify("password123").unwrap(), true);
}

#[test]
fn one_salt_gives_one_text_and_another_salt_another() {
    let hash = |salt: &str| {
        john().parse().field().password().argon2_hash_with_salt(salt, None).unwrap().0
    };
    let first = hash("c29tZXNhbHQ");
    assert_eq!(first, hash("c29tZXNhbHQ"));
    assert_ne!(first, hash("b3RoZXJzYWx0"));
}

#[test]
fn a_salt_that_the_library_refuses_is_a_hash_error() {
    let short = john().parse().field().password().argon2_hash_with_salt("abc", None);
    assert!(matches!(short, Err(HashError::Hash(_))));
    let odd = john().parse().field().password().argon2_hash_with_salt("not base64!!", None);
    assert!(matches!(odd, Err(HashError::Hash(_))));
    let empty = john().parse().field().password().argon2_hash_with_salt("", None);
    assert!(matches!(empty, Err(HashError::Hash(_))));
}

#[test]
fn a_hash_verifies_its_plaintext_only() {
    let stored = john().parse().field().password().argon2_hash(Some(4)).unwrap();
    assert!(stored.0.starts_with("$argon2id$v=19$m=65536,t=3,p=4$"));
    assert_ne!(stored.0, "password123");
    assert_eq!(stored.verify("password123").unwrap(), true);
    assert_eq!(stored.verify("password124").unwrap(), false);
}

#[test]
fn two_hashes_of_one_plaintext_differ() {
    let first = john().parse().field().password().argon2_hash(None).unwrap();
    let second = john().parse().field().password().argon2_hash(None).unwrap();
    assert!(first.0.starts_with("$argon2id$v=19$m=65536,t=3,p=1$"));
    assert_ne!(first.0, second.0);
    assert_eq!(second.verify("password123").unwrap(), true);
}

#[test]
fn a_stored_text_that_is_no_hash_is_a_parse_error() {
    let broken = FieldArgon2("not a hash".to_string());
    assert!(matches!(broken.verify("password123"), Err(HashError::Parse(_))));
    let empty = FieldArgon2(String::new());
    assert!(matches!(empty.verify(""), Err(HashError::Parse(_))));
}

#[test]
fn a_container_of_the_record_goes_into_every_form() {
    let expected_json = john().parse().json().unwrap();
    let expected_toml = john().parse().toml().unwrap();
    let expected_bin = john().parse().bin().unwrap();
    assert_eq!(&john().parse().arc().json().unwrap(), expected_json.get());
    assert_eq!(&john().parse().boxed().json().unwrap(), expected_json.get());
    assert_eq!(&john().parse().vec().json().unwrap(), expected_json.get());
    assert_eq!(&john().parse().once_cell().json().unwrap(), expected_json.get());
    assert_eq!(&john().parse().mutex().json().unwrap(), expected_json.get());
    assert_eq!(&john().parse().tokio_mutex().json().unwrap(), expected_json.get());
    assert_eq!(&john().parse().ref_cell().json().unwrap(), expected_json.get());
    assert_eq!(&john().parse().unsafe_cell().json().unwrap(), expected_json.get());
    assert_eq!(&john().parse().arc().toml().unwrap(), expected_toml.get());
    assert_eq!(&john().parse().mutex().toml().unwrap(), expected_toml.get());
    assert_eq!(&john().parse().once_cell().toml().unwrap(), expected_toml.get());
    assert_eq!(john().parse().boxed().bin().unwrap(), expected_bin.get());
    assert_eq!(john().parse().ref_cell().bin().unwrap(), expected_bin.get());
    assert_eq!(john().parse().vec().bin().unwrap(), expected_bin.get());
    let fields = john().parse().unsafe_cell().hashmap();
    assert_eq!(fields.len(), 6);
    assert_eq!(fields.get("name"), Some(&FieldValue::Text("John Doe".to_string())));
    let fields = john().parse().arc().hashmap();
    assert_eq!(fields.get("age"), Some(&FieldValue::Byte(25)));
    assert_eq!(john().parse().tokio_mutex().hashmap().len(), 6);
    assert_eq!(john().parse().once_cell().hashmap().len(), 6);
}

#[test]
fn a_form_of_the_record_goes_into_every_other_form() {
    let expected_json = john().parse().json().unwrap();
    let expected_toml = john().parse().toml().unwrap();
    let expected_bin = john().parse().bin().unwrap();
    assert_eq!(&john().parse().bin().unwrap().json().unwrap(), expected_json.get());
    assert_eq!(&john().parse().toml().unwrap().json().unwrap(), expected_json.get());
    assert_eq!(&john().parse().hashmap().json().unwrap(), expected_json.get());
    assert_eq!(&john().parse().bin().unwrap().toml().unwrap(), expected_toml.get());
    assert_eq!(&john().parse().json().unwrap().toml().unwrap(), expected_toml.get());
    assert_eq!(&john().parse().hashmap().toml().unwrap(), expected_toml.get());
    assert_eq!(john().parse().json().unwrap().bin().unwrap(), expected_bin.get());
    assert_eq!(john().parse().toml().unwrap().bin().unwrap(), expected_bin.get());
    assert_eq!(john().parse().hashmap().bin().unwrap(), expected_bin.get());
    let fields = john().parse().bin().unwrap().hashmap().unwrap();
    assert_eq!(fields.get("email"), Some(&FieldValue::Text("johndoe@example.com".to_string())));
    assert_eq!(john().parse().json().unwrap().hashmap().unwrap().len(), 6);
    assert_eq!(john().parse().toml().unwrap().hashmap().unwrap().len(), 6);
}

#[test]
fn a_form_that_is_no_record_is_an_error_of_the_conversion() {
    let bytes = ParseBin::from_encoding(Ok(vec![2, 117])).unwrap();
    assert!(matches!(bytes.json(), Err(FormError::Binary(BinError::Decode(_)))));
    let bytes = ParseBin::from_encoding(Ok(vec![253, 255, 255, 255, 255, 255, 255, 255, 255]));
    assert!(matches!(bytes.unwrap().hashmap(), Err(FormError::Binary(BinError::Decode(_)))));
    let bytes = ParseBin::from_encoding(Ok(Vec::new())).unwrap();
    assert!(matches!(bytes.toml(), Err(FormError::Binary(BinError::Decode(_)))));
}

#[test]
fn a_hash_with_lanes_of_many_digits_verifies_nothing() {
    let stored = john().parse().field().password().argon2_hash_with_salt("c29tZXNhbHQ", None);
    let stored = stored.unwrap();
    assert_eq!(stored.verify("password123").unwrap(), true);
    for lanes in ["p=536870912", "p=4294967295", "p=100000000", "p=99999999999", "p=1,p=536870912"]
    {
        let altered = FieldArgon2(stored.0.replace("p=1", lanes));
        assert_eq!(altered.verify("password123").unwrap(), false);
    }
    let doubled = FieldArgon2(stored.0.replace("p=1", "p=536870912,p=1"));
    assert_eq!(doubled.verify("password123").unwrap(), true);
    let many = FieldArgon2(stored.0.replace("p=1", "p=16777216"));
    assert_eq!(many.verify("password123").unwrap(), false);
}

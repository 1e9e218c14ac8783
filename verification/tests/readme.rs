use shori::user::User;

#[test]
fn readme_parse_toml() {
    let user_parse = User {
        id: "123e4567-e89b-12d3-a456-426614174000".to_string(),
        name: "John Doe".to_string(),
        password: "123".to_string(),
        email: "john@example.com".to_string(),
        age: 25,
        gender: "M".to_string(),
    }
    .parse()
    .toml()
    .unwrap();

    let toml_val = user_parse.get();
    let recovered = user_parse.from_value(&toml_val).unwrap();

    assert_eq!(recovered.name, "John Doe");

    let from = user_parse.from().unwrap();
    assert_eq!(from.email, "john@example.com");
}

#[test]
fn readme_parse_box() {
    let user = User {
        id: "123e4567-e89b-12d3-a456-426614174000".to_string(),
        name: "John Doe".to_string(),
        password: "password123".to_string(),
        email: "johndoe@example.com".to_string(),
        age: 25,
        gender: "F".to_string(),
    }
    .parse()
    .boxed()
    .get();

    assert_eq!(user.name, "John Doe");
}

use shori::user::User;

#[test]
fn parse_hash_map_parse_hash_map() {
    let id = "123e4567-e89b-12d3-a456-426614174000".to_string();
    let name = "John Doe".to_string();
    let password = "password123".to_string();
    let email = "johndoe@example.com".to_string();
    let age = 25;
    let gender = "F".to_string();

    let user = User {
        id: id.clone(),
        name: name.clone(),
        password: password.clone(),
        email: email.clone(),
        age,
        gender: gender.clone(),
    }
    .parse()
    .hashmap();

    assert_eq!(user.get::<String>("id").unwrap(), &id);
    assert_eq!(user.get::<String>("name").unwrap(), &name);
    assert_eq!(user.get::<String>("password").unwrap(), &password);
    assert_eq!(user.get::<String>("email").unwrap(), &email);
    assert_eq!(user.get::<u8>("age").unwrap(), &age);
    assert_eq!(user.get::<String>("gender").unwrap(), &gender);
}

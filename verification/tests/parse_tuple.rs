use shori::user::User;

fn sample() -> User {
    User {
        id: "123e4567-e89b-12d3-a456-426614174000".to_string(),
        name: "John Doe".to_string(),
        password: "password123".to_string(),
        email: "johndoe@example.com".to_string(),
        age: 25,
        gender: "F".to_string(),
    }
}

#[test]
fn parse_tuple_parse_tuple() {
    let user = sample().parse();

    let (id, name, password, email, age, gender) = user.tuple();

    assert_eq!(id, "123e4567-e89b-12d3-a456-426614174000");
    assert_eq!(name, "John Doe");
    assert_eq!(password, "password123");
    assert_eq!(email, "johndoe@example.com");
    assert_eq!(age, &25);
    assert_eq!(gender, "F");
}

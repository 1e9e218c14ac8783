use shori::user::User;

fn sample() -> User {
    User {
        id: "123e4567-e89b-12d3-a456-426614174000".to_string(),
        name: "John Doe".to_string(),
        password: "password123".to_string(),
        email: "johndoe@example.com".to_string(),
        age: 25,
        gender: "F".to_string(),
    }
}

#[test]
fn parse_box_parse_box() {
    let user = sample().parse().boxed().get();

    assert_eq!(user.name, "John Doe");
}

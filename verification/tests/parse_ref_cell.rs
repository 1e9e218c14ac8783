use shori::user::User;

fn sample() -> User {
    User {
        id: "123e4567-e89b-12d3-a456-426614174000".to_string(),
        name: "John Doe".to_string(),
        password: "password123".to_string(),
        email: "johndoe@example.com".to_string(),
        age: 25,
        gender: "F".to_string(),
    }
}

#[test]
fn parse_ref_cell_parse_ref_cell() {
    let user = sample().parse().ref_cell().get();

    {
        let mut user_borrow = user.borrow_mut();
        user_borrow.name = "Jane Doe".into();
    }

    assert_eq!(user.borrow().name, "Jane Doe");
}

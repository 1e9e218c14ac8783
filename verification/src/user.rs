//! The sample record.

use vstd::prelude::*;

verus! {

/// A user account: the record that the wrappers of this crate are built
/// around.
#[derive(Clone, Debug, Default, PartialEq, Eq)]
pub struct User {
    pub id: String,
    pub name: String,
    pub password: String,
    pub email: String,
    pub age: u8,
    pub gender: String,
}

/// The mathematical value of a [`User`].
pub struct UserView {
    pub id: Seq<char>,
    pub name: Seq<char>,
    pub password: Seq<char>,
    pub email: Seq<char>,
    pub age: u8,
    pub gender: Seq<char>,
}

impl View for User {
    type V = UserView;

    open spec fn view(&self) -> UserView {
        UserView {
            id: self.id@,
            name: self.name@,
            password: self.password@,
            email: self.email@,
            age: self.age,
            gender: self.gender@,
        }
    }
}

/// One of the fields of a [`User`], in declaration order.
#[derive(Clone, Copy, Debug, PartialEq, Eq, Structural)]
pub enum UserField {
    Id,
    Name,
    Password,
    Email,
    Age,
    Gender,
}

impl UserField {
    /// The field's name, as it is written in the record and used as a key.
    pub open spec fn key(self) -> Seq<char> {
        match self {
            UserField::Id => "id"@,
            UserField::Name => "name"@,
            UserField::Password => "password"@,
            UserField::Email => "email"@,
            UserField::Age => "age"@,
            UserField::Gender => "gender"@,
        }
    }

    /// The field's name.
    pub fn name(self) -> (name: &'static str)
        ensures
            name@ == self.key(),
    {
        match self {
            UserField::Id => "id",
            UserField::Name => "name",
            UserField::Password => "password",
            UserField::Email => "email",
            UserField::Age => "age",
            UserField::Gender => "gender",
        }
    }
}

/// The names of two different fields differ.
pub proof fn lemma_keys_differ(first: UserField, second: UserField)
    requires
        first != second,
    ensures
        first.key() != second.key(),
{
    reveal_strlit("id");
    reveal_strlit("name");
    reveal_strlit("password");
    reveal_strlit("email");
    reveal_strlit("age");
    reveal_strlit("gender");
    if first.key().len() == second.key().len() {
        assert(first.key()[0] != second.key()[0]);
    }
}

} // verus!

//! The record as a table of values, which is what its JSON and
//! structured-text forms hold.

use vstd::prelude::*;
use crate::user::User;
use crate::user::UserField;
use crate::user::UserView;
use crate::user::lemma_keys_differ;

verus! {

/// What a serialized value holds, as far as a record needs it.
pub enum Tree {
    /// A text string.
    Text(Seq<char>),
    /// An integer.
    Integer(int),
    /// A table from keys to values: a JSON object, a structured-text table.
    Table(Map<Seq<char>, Tree>),
    /// Anything else.
    Other,
}

/// Why a value is not a record.
#[derive(Clone, Copy, Debug, PartialEq, Eq, Structural)]
pub enum FieldError {
    /// The value holds nothing under the name of the field.
    Missing(UserField),
    /// The value holds something under the name of the field that is not of
    /// the field's type.
    WrongType(UserField),
}

/// The table that stands for `user`: each field under its name, a text field
/// as text and the age as an integer.
pub open spec fn record_tree(user: UserView) -> Tree {
    Tree::Table(
        Map::empty().insert(UserField::Id.key(), Tree::Text(user.id)).insert(
            UserField::Name.key(),
            Tree::Text(user.name),
        ).insert(UserField::Password.key(), Tree::Text(user.password)).insert(
            UserField::Email.key(),
            Tree::Text(user.email),
        ).insert(UserField::Age.key(), Tree::Integer(user.age as int)).insert(
            UserField::Gender.key(),
            Tree::Text(user.gender),
        ),
    )
}

/// What `tree` holds under the name of `field`, if it is a table that holds
/// something there.
pub open spec fn member(tree: Tree, field: UserField) -> Option<Tree> {
    match tree {
        Tree::Table(members) => if members.dom().contains(field.key()) {
            Some(members[field.key()])
        } else {
            None
        },
        _ => None,
    }
}

/// The text of `field` in `tree`.
pub open spec fn text_member(tree: Tree, field: UserField) -> Result<Seq<char>, FieldError> {
    match member(tree, field) {
        Some(Tree::Text(text)) => Ok(text),
        Some(_) => Err(FieldError::WrongType(field)),
        None => Err(FieldError::Missing(field)),
    }
}

/// The byte of `field` in `tree`: an integer from 0 to 255.
pub open spec fn byte_member(tree: Tree, field: UserField) -> Result<u8, FieldError> {
    match member(tree, field) {
        Some(Tree::Integer(n)) => if 0 <= n <= 255 {
            Ok(n as u8)
        } else {
            Err(FieldError::WrongType(field))
        },
        Some(_) => Err(FieldError::WrongType(field)),
        None => Err(FieldError::Missing(field)),
    }
}

/// The record that `tree` stands for. The fields are read in declaration
/// order, and the first that is missing or of the wrong type is reported.
/// What the table holds under other names is ignored.
pub open spec fn tree_record(tree: Tree) -> Result<UserView, FieldError> {
    match text_member(tree, UserField::Id) {
        Err(error) => Err(error),
        Ok(id) => match text_member(tree, UserField::Name) {
            Err(error) => Err(error),
            Ok(name) => match text_member(tree, UserField::Password) {
                Err(error) => Err(error),
                Ok(password) => match text_member(tree, UserField::Email) {
                    Err(error) => Err(error),
                    Ok(email) => match byte_member(tree, UserField::Age) {
                        Err(error) => Err(error),
                        Ok(age) => match text_member(tree, UserField::Gender) {
                            Err(error) => Err(error),
                            Ok(gender) => Ok(
                                UserView { id, name, password, email, age, gender },
                            ),
                        },
                    },
                },
            },
        },
    }
}

/// Whether `result` is what decoding `tree` gives.
pub open spec fn decodes_tree(tree: Tree, result: Result<User, FieldError>) -> bool {
    match result {
        Ok(user) => tree_record(tree) == Ok::<UserView, FieldError>(user@),
        Err(error) => tree_record(tree) == Err::<UserView, FieldError>(error),
    }
}

/// The round trip through a table of values gives the record back.
pub proof fn law_tree_round_trip(user: UserView)
    ensures
        tree_record(record_tree(user)) == Ok::<UserView, FieldError>(user),
{
    lemma_keys_differ(UserField::Id, UserField::Name);
    lemma_keys_differ(UserField::Id, UserField::Password);
    lemma_keys_differ(UserField::Id, UserField::Email);
    lemma_keys_differ(UserField::Id, UserField::Age);
    lemma_keys_differ(UserField::Id, UserField::Gender);
    lemma_keys_differ(UserField::Name, UserField::Password);
    lemma_keys_differ(UserField::Name, UserField::Email);
    lemma_keys_differ(UserField::Name, UserField::Age);
    lemma_keys_differ(UserField::Name, UserField::Gender);
    lemma_keys_differ(UserField::Password, UserField::Email);
    lemma_keys_differ(UserField::Password, UserField::Age);
    lemma_keys_differ(UserField::Password, UserField::Gender);
    lemma_keys_differ(UserField::Email, UserField::Age);
    lemma_keys_differ(UserField::Email, UserField::Gender);
    lemma_keys_differ(UserField::Age, UserField::Gender);
    let tree = record_tree(user);
    assert(text_member(tree, UserField::Id) == Ok::<Seq<char>, FieldError>(user.id));
    assert(text_member(tree, UserField::Name) == Ok::<Seq<char>, FieldError>(user.name));
    assert(text_member(tree, UserField::Password) == Ok::<Seq<char>, FieldError>(user.password));
    assert(text_member(tree, UserField::Email) == Ok::<Seq<char>, FieldError>(user.email));
    assert(byte_member(tree, UserField::Age) == Ok::<u8, FieldError>(user.age));
    assert(text_member(tree, UserField::Gender) == Ok::<Seq<char>, FieldError>(user.gender));
}

/// Decoding what stands for a record returns that record: whatever decoding
/// the table of `user` gives is `user`, and no error.
pub proof fn law_decoding_returns_the_record(user: UserView, result: Result<User, FieldError>)
    requires
        decodes_tree(record_tree(user), result),
    ensures
        result matches Ok(read) && read@ == user,
{
    law_tree_round_trip(user);
}

/// A table that lacks a field is no record: decoding reports the first field
/// that is missing, unless an earlier field is of the wrong type.
pub proof fn law_missing_field_is_reported(tree: Tree, field: UserField)
    requires
        member(tree, field) is None,
    ensures
        tree_record(tree) is Err,
{
}

} // verus!

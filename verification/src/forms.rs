//! The forms of a record: its map of fields, its bytes, its structured-text
//! value and its JSON value, made of a record that a wrapper holds.

use vstd::prelude::*;
use vstd::hash_map::StringHashMap;
use crate::binary::BinError;
use crate::binary::LENGTH_ALLOWANCE;
use crate::binary::bincode_decoding;
use crate::binary::bincode_encode;
use crate::binary::encoding_bound;
use crate::binary::record_encoding;
use crate::field_map::FieldValue;
use crate::field_map::record_map;
use crate::json_value::json_tree;
use crate::toml_value::toml_tree;
use crate::tree::FieldError;
use crate::tree::record_tree;
use crate::user::User;
use crate::user::UserField;
use crate::user::UserView;

verus! {

/// Why what a wrapper holds could not be put into another form: it had to be
/// read as a record first, and is none.
#[derive(Debug)]
pub enum FormError {
    /// The held bytes, or the writing of bytes, failed.
    Binary(BinError),
    /// The held value or map lacks a field, or holds one of another type.
    Value(FieldError),
}

/// Whether `fields` is the map of a record with the value `user`.
pub open spec fn is_map_of(user: UserView, fields: StringHashMap<FieldValue>) -> bool {
    exists|record: User| record@ == user && fields@ == record_map(record)
}

/// Whether `result` is the binary form of `user`: its bytes, which the codec
/// reads `user` back from under every limit that covers them.
pub open spec fn is_bin_of(user: UserView, result: Result<Vec<u8>, FormError>) -> bool {
    result matches Ok(bytes) && bytes@ == record_encoding(user) && bytes@.len() <= encoding_bound(
        user,
    ) && forall|limit: usize|
        bytes@.len() + LENGTH_ALLOWANCE <= limit ==> #[trigger] bincode_decoding(bytes@, limit)
            == Some(user)
}

/// Whether `result` is the structured-text value of `user`: a table with each
/// field under its name.
pub open spec fn is_toml_of(user: UserView, result: Result<toml::Value, FormError>) -> bool {
    result matches Ok(value) && toml_tree(value) == record_tree(user)
}

/// Whether `result` is the JSON value of `user`: an object with each field
/// under its name.
pub open spec fn is_json_of(user: UserView, result: Result<serde_json::Value, FormError>) -> bool {
    result matches Ok(value) && json_tree(value) == record_tree(user)
}

/// A copy of `user`.
pub fn copy_of(user: &User) -> (copy: User)
    ensures
        copy == *user,
{
    User {
        id: user.id.clone(),
        name: user.name.clone(),
        password: user.password.clone(),
        email: user.email.clone(),
        age: user.age,
        gender: user.gender.clone(),
    }
}

/// The map of the fields of `user`.
pub fn map_form(user: &User) -> (fields: StringHashMap<FieldValue>)
    ensures
        fields@ == record_map(*user),
        is_map_of(user@, fields),
{
    crate::field_map::fields_of(copy_of(user))
}

/// The bytes of `user`.
pub fn bin_form(user: &User) -> (result: Result<Vec<u8>, FormError>)
    ensures
        is_bin_of(user@, result),
{
    match bincode_encode(user) {
        Ok(bytes) => Ok(bytes),
        Err(error) => Err(FormError::Binary(BinError::Encode(error))),
    }
}

/// The structured-text value of `user`.
pub fn toml_form(user: &User) -> (result: Result<toml::Value, FormError>)
    ensures
        is_toml_of(user@, result),
{
    Ok(crate::toml_value::encode(user))
}

/// The JSON value of `user`.
pub fn json_form(user: &User) -> (result: Result<serde_json::Value, FormError>)
    ensures
        is_json_of(user@, result),
{
    Ok(crate::json_value::encode(user))
}

/// What reading a record from bytes gives, as the start of a conversion.
pub open spec fn read_from_bytes(bytes: Seq<u8>, result: Result<User, FormError>) -> bool {
    match result {
        Ok(user) => bincode_decoding(bytes, crate::binary::limit_for(bytes.len())) == Some(user@),
        Err(error) => bincode_decoding(bytes, crate::binary::limit_for(bytes.len())) is None && (
        error matches FormError::Binary(cause) && cause is Decode),
    }
}

/// What reading a record from a table of values gives, as the start of a
/// conversion.
pub open spec fn read_from_tree(tree: crate::tree::Tree, result: Result<User, FormError>) -> bool {
    match result {
        Ok(user) => crate::tree::tree_record(tree) == Ok::<UserView, FieldError>(user@),
        Err(error) => (error matches FormError::Value(cause) && crate::tree::tree_record(tree)
            == Err::<UserView, FieldError>(cause)),
    }
}

/// Reads a record from `bytes`.
pub fn record_from_bytes(bytes: &[u8]) -> (result: Result<User, FormError>)
    ensures
        read_from_bytes(bytes@, result),
{
    match crate::binary::decode(bytes) {
        Ok(user) => Ok(user),
        Err(error) => Err(FormError::Binary(error)),
    }
}

/// Reads a record from a JSON value.
pub fn record_from_json(value: &serde_json::Value) -> (result: Result<User, FormError>)
    ensures
        read_from_tree(json_tree(*value), result),
{
    match crate::json_value::decode(value) {
        Ok(user) => Ok(user),
        Err(error) => Err(FormError::Value(error)),
    }
}

/// Reads a record from a structured-text value.
pub fn record_from_toml(value: &toml::Value) -> (result: Result<User, FormError>)
    ensures
        read_from_tree(toml_tree(*value), result),
{
    match crate::toml_value::decode(value) {
        Ok(user) => Ok(user),
        Err(error) => Err(FormError::Value(error)),
    }
}

/// The text under the name of `field` in `fields`.
pub open spec fn text_entry(fields: Map<Seq<char>, FieldValue>, field: UserField) -> Result<
    Seq<char>,
    FieldError,
> {
    if !fields.dom().contains(field.key()) {
        Err(FieldError::Missing(field))
    } else {
        match fields[field.key()] {
            FieldValue::Text(text) => Ok(text@),
            FieldValue::Byte(_) => Err(FieldError::WrongType(field)),
        }
    }
}

/// The byte under the name of `field` in `fields`.
pub open spec fn byte_entry(fields: Map<Seq<char>, FieldValue>, field: UserField) -> Result<
    u8,
    FieldError,
> {
    if !fields.dom().contains(field.key()) {
        Err(FieldError::Missing(field))
    } else {
        match fields[field.key()] {
            FieldValue::Text(_) => Err(FieldError::WrongType(field)),
            FieldValue::Byte(byte) => Ok(byte),
        }
    }
}

/// The record that the map `fields` stands for. The fields are read in
/// declaration order, and the first that is missing or of another type is
/// reported.
pub open spec fn map_record(fields: Map<Seq<char>, FieldValue>) -> Result<UserView, FieldError> {
    match text_entry(fields, UserField::Id) {
        Err(error) => Err(error),
        Ok(id) => match text_entry(fields, UserField::Name) {
            Err(error) => Err(error),
            Ok(name) => match text_entry(fields, UserField::Password) {
                Err(error) => Err(error),
                Ok(password) => match text_entry(fields, UserField::Email) {
                    Err(error) => Err(error),
                    Ok(email) => match byte_entry(fields, UserField::Age) {
                        Err(error) => Err(error),
                        Ok(age) => match text_entry(fields, UserField::Gender) {
                            Err(error) => Err(error),
                            Ok(gender) => Ok(
                                UserView { id, name, password, email, age, gender },
                            ),
                        },
                    },
                },
            },
        },
    }
}

/// What reading a record from a map of fields gives, as the start of a
/// conversion.
pub open spec fn read_from_map(fields: Map<Seq<char>, FieldValue>, result: Result<User, FormError>)
    -> bool {
    match result {
        Ok(user) => map_record(fields) == Ok::<UserView, FieldError>(user@),
        Err(error) => (error matches FormError::Value(cause) && map_record(fields) == Err::<
            UserView,
            FieldError,
        >(cause)),
    }
}

/// Reads the text of `field` from `fields`.
fn read_text(fields: &StringHashMap<FieldValue>, field: UserField) -> (result: Result<
    String,
    FieldError,
>)
    ensures
        match result {
            Ok(text) => text_entry(fields@, field) == Ok::<Seq<char>, FieldError>(text@),
            Err(error) => text_entry(fields@, field) == Err::<Seq<char>, FieldError>(error),
        },
{
    match fields.get(field.name()) {
        None => Err(FieldError::Missing(field)),
        Some(FieldValue::Text(text)) => Ok(text.clone()),
        Some(FieldValue::Byte(_)) => Err(FieldError::WrongType(field)),
    }
}

/// Reads the byte of `field` from `fields`.
fn read_byte(fields: &StringHashMap<FieldValue>, field: UserField) -> (result: Result<
    u8,
    FieldError,
>)
    ensures
        match result {
            Ok(byte) => byte_entry(fields@, field) == Ok::<u8, FieldError>(byte),
            Err(error) => byte_entry(fields@, field) == Err::<u8, FieldError>(error),
        },
{
    match fields.get(field.name()) {
        None => Err(FieldError::Missing(field)),
        Some(FieldValue::Text(_)) => Err(FieldError::WrongType(field)),
        Some(FieldValue::Byte(byte)) => Ok(*byte),
    }
}

/// Reads a record from a map of fields.
pub fn record_from_map(fields: &StringHashMap<FieldValue>) -> (result: Result<User, FormError>)
    ensures
        read_from_map(fields@, result),
{
    let id = match read_text(fields, UserField::Id) {
        Ok(text) => text,
        Err(error) => { return Err(FormError::Value(error)); },
    };
    let name = match read_text(fields, UserField::Name) {
        Ok(text) => text,
        Err(error) => { return Err(FormError::Value(error)); },
    };
    let password = match read_text(fields, UserField::Password) {
        Ok(text) => text,
        Err(error) => { return Err(FormError::Value(error)); },
    };
    let email = match read_text(fields, UserField::Email) {
        Ok(text) => text,
        Err(error) => { return Err(FormError::Value(error)); },
    };
    let age = match read_byte(fields, UserField::Age) {
        Ok(byte) => byte,
        Err(error) => { return Err(FormError::Value(error)); },
    };
    let gender = match read_text(fields, UserField::Gender) {
        Ok(text) => text,
        Err(error) => { return Err(FormError::Value(error)); },
    };
    Ok(User { id, name, password, email, age, gender })
}

/// Whether `result` is what a conversion into the map gives once a record was
/// read: the map of the record, or the error of the reading.
pub open spec fn map_of_read(
    read: Result<User, FormError>,
    result: Result<StringHashMap<FieldValue>, FormError>,
) -> bool {
    match read {
        Ok(user) => result matches Ok(fields) && is_map_of(user@, fields),
        Err(error) => result matches Err(cause) && cause == error,
    }
}

/// Whether `result` is what a conversion into bytes gives once a record was
/// read.
pub open spec fn bin_of_read(read: Result<User, FormError>, result: Result<Vec<u8>, FormError>)
    -> bool {
    match read {
        Ok(user) => is_bin_of(user@, result),
        Err(error) => result matches Err(cause) && cause == error,
    }
}

/// Whether `result` is what a conversion into the structured-text value gives
/// once a record was read.
pub open spec fn toml_of_read(
    read: Result<User, FormError>,
    result: Result<toml::Value, FormError>,
) -> bool {
    match read {
        Ok(user) => is_toml_of(user@, result),
        Err(error) => result matches Err(cause) && cause == error,
    }
}

/// Whether `result` is what a conversion into the JSON value gives once a
/// record was read.
pub open spec fn json_of_read(
    read: Result<User, FormError>,
    result: Result<serde_json::Value, FormError>,
) -> bool {
    match read {
        Ok(user) => is_json_of(user@, result),
        Err(error) => result matches Err(cause) && cause == error,
    }
}

/// The map of what was read, or the error of the reading.
pub fn map_after(read: Result<User, FormError>) -> (result: Result<
    StringHashMap<FieldValue>,
    FormError,
>)
    ensures
        map_of_read(read, result),
{
    match read {
        Ok(user) => Ok(map_form(&user)),
        Err(error) => Err(error),
    }
}

/// The bytes of what was read, or the error of the reading.
pub fn bin_after(read: Result<User, FormError>) -> (result: Result<Vec<u8>, FormError>)
    ensures
        bin_of_read(read, result),
{
    match read {
        Ok(user) => bin_form(&user),
        Err(error) => Err(error),
    }
}

/// The structured-text value of what was read, or the error of the reading.
pub fn toml_after(read: Result<User, FormError>) -> (result: Result<toml::Value, FormError>)
    ensures
        toml_of_read(read, result),
{
    match read {
        Ok(user) => toml_form(&user),
        Err(error) => Err(error),
    }
}

/// The JSON value of what was read, or the error of the reading.
pub fn json_after(read: Result<User, FormError>) -> (result: Result<
    serde_json::Value,
    FormError,
>)
    ensures
        json_of_read(read, result),
{
    match read {
        Ok(user) => json_form(&user),
        Err(error) => Err(error),
    }
}

} // verus!

//! The JSON form of the record.

use vstd::prelude::*;
use crate::field_map::FieldValue;
use vstd::hash_map::StringHashMap;
use crate::forms::record_from_json;
use crate::forms::read_from_tree;
use crate::forms::toml_of_read;
use crate::forms::toml_after;
use crate::forms::map_of_read;
use crate::forms::map_after;
use crate::forms::bin_of_read;
use crate::forms::bin_after;
use crate::forms::FormError;
use crate::cells::mutex_made_of;
use crate::cells::mutex_of;
use crate::cells::once_cell_made_of;
use crate::cells::once_cell_of;
use crate::cells::ref_cell_made_of;
use crate::cells::ref_cell_of;
use crate::cells::tokio_mutex_made_of;
use crate::cells::tokio_mutex_of;
use crate::cells::unsafe_cell_made_of;
use crate::cells::unsafe_cell_of;
use crate::tree::FieldError;
use crate::tree::Tree;
use crate::tree::byte_member;
use crate::tree::decodes_tree;
use crate::tree::member;
use crate::tree::record_tree;
use crate::tree::text_member;
use crate::user::User;
use crate::user::UserField;

verus! {

/// `serde_json::Value`. What it holds is read through [`json_tree`].
#[verifier::external_type_specification]
#[verifier::external_body]
pub struct ExJsonValue(serde_json::Value);

/// What a JSON value holds: a string is a text, a number that is an integer is that integer,
/// an object is the table of its members, and anything else is other.
pub uninterp spec fn json_tree(value: serde_json::Value) -> Tree;

/// Calls `serde_json::Value::from` on a string slice. Trusted: the value is a
/// string with that text.
#[verifier::external_body]
pub(crate) fn json_text(text: &str) -> (value: serde_json::Value)
    ensures
        json_tree(value) == Tree::Text(text@),
{
    serde_json::Value::from(text)
}

/// Calls `serde_json::Value::from` on a `u8`. Trusted: the value is that number.
#[verifier::external_body]
pub(crate) fn json_byte(byte: u8) -> (value: serde_json::Value)
    ensures
        json_tree(value) == Tree::Integer(byte as int),
{
    serde_json::Value::from(byte)
}

/// Makes `serde_json::Value::Object` of `serde_json::Map::new`. Trusted: the value
/// is a table that holds nothing.
#[verifier::external_body]
pub(crate) fn json_table() -> (value: serde_json::Value)
    ensures
        json_tree(value) == Tree::Table(Map::empty()),
{
    serde_json::Value::Object(serde_json::Map::new())
}

/// Assigns through `serde_json::Value`'s `IndexMut` with a string key, which
/// inserts the key where it is missing. Trusted: the table then holds `value`
/// under `key`, and everything else as before. `IndexMut` panics on a value
/// that is neither a table nor null; `requires` leaves those out.
#[verifier::external_body]
pub(crate) fn json_insert(table: &mut serde_json::Value, key: &str, value: serde_json::Value)
    requires
        json_tree(*old(table)) is Table,
    ensures
        json_tree(*final(table)) == Tree::Table(
            json_tree(*old(table))->Table_0.insert(key@, json_tree(value)),
        ),
{
    table[key] = value;
}

/// Calls `serde_json::Value::get` with a string key. Trusted: it returns what
/// a table holds under the key, and nothing for a missing key or a value that
/// is no table.
#[verifier::external_body]
pub(crate) fn json_member<'a>(value: &'a serde_json::Value, key: &str) -> (found: Option<
    &'a serde_json::Value,
>)
    ensures
        match found {
            Some(inner) => json_tree(*value) matches Tree::Table(members) && members.dom().contains(
                key@,
            ) && json_tree(*inner) == members[key@],
            None => !(json_tree(*value) matches Tree::Table(members) && members.dom().contains(
                key@,
            )),
        },
{
    value.get(key)
}

/// Calls `serde_json::Value::as_str`. Trusted: it returns the text of a string,
/// and nothing for any other value.
#[verifier::external_body]
pub(crate) fn json_as_text<'a>(value: &'a serde_json::Value) -> (text: Option<&'a str>)
    ensures
        match text {
            Some(inner) => json_tree(*value) == Tree::Text(inner@),
            None => !(json_tree(*value) is Text),
        },
{
    value.as_str()
}

/// Calls `serde_json::Value::as_u64`. Trusted: it returns an integer that is not negative, and
/// nothing for any other value.
#[verifier::external_body]
pub(crate) fn json_as_u64(value: &serde_json::Value) -> (number: Option<u64>)
    ensures
        match number {
            Some(n) => json_tree(*value) == Tree::Integer(n as int),
            None => !(json_tree(*value) matches Tree::Integer(n) && n >= 0),
        },
{
    value.as_u64()
}

/// The JSON value that stands for `user`: a table with each field under
/// its name.
pub fn encode(user: &User) -> (value: serde_json::Value)
    ensures
        json_tree(value) == record_tree(user@),
{
    let mut table = json_table();
    json_insert(&mut table, UserField::Id.name(), json_text(user.id.as_str()));
    json_insert(&mut table, UserField::Name.name(), json_text(user.name.as_str()));
    json_insert(&mut table, UserField::Password.name(), json_text(user.password.as_str()));
    json_insert(&mut table, UserField::Email.name(), json_text(user.email.as_str()));
    json_insert(&mut table, UserField::Age.name(), json_byte(user.age));
    json_insert(&mut table, UserField::Gender.name(), json_text(user.gender.as_str()));
    table
}

/// Reads the text of `field` from `value`.
fn read_text(value: &serde_json::Value, field: UserField) -> (result: Result<String, FieldError>)
    ensures
        match result {
            Ok(text) => text_member(json_tree(*value), field) == Ok::<Seq<char>, FieldError>(text@),
            Err(error) => text_member(json_tree(*value), field) == Err::<Seq<char>, FieldError>(
                error,
            ),
        },
{
    match json_member(value, field.name()) {
        None => Err(FieldError::Missing(field)),
        Some(inner) => match json_as_text(inner) {
            None => Err(FieldError::WrongType(field)),
            Some(text) => Ok(String::from_str(text)),
        },
    }
}

/// Reads the byte of `field` from `value`.
fn read_byte(value: &serde_json::Value, field: UserField) -> (result: Result<u8, FieldError>)
    ensures
        match result {
            Ok(byte) => byte_member(json_tree(*value), field) == Ok::<u8, FieldError>(byte),
            Err(error) => byte_member(json_tree(*value), field) == Err::<u8, FieldError>(error),
        },
{
    match json_member(value, field.name()) {
        None => Err(FieldError::Missing(field)),
        Some(inner) => match json_as_u64(inner) {
            None => Err(FieldError::WrongType(field)),
            Some(n) => if 0 <= n && n <= 255 {
                Ok(n as u8)
            } else {
                Err(FieldError::WrongType(field))
            },
        },
    }
}

/// Reads a record from `value`: a table that holds every field under its
/// name, with the field's type. The first field, in declaration order, that is
/// missing or of another type is reported.
pub fn decode(value: &serde_json::Value) -> (result: Result<User, FieldError>)
    ensures
        decodes_tree(json_tree(*value), result),
{
    let id = match read_text(value, UserField::Id) {
        Ok(text) => text,
        Err(error) => { return Err(error); },
    };
    let name = match read_text(value, UserField::Name) {
        Ok(text) => text,
        Err(error) => { return Err(error); },
    };
    let password = match read_text(value, UserField::Password) {
        Ok(text) => text,
        Err(error) => { return Err(error); },
    };
    let email = match read_text(value, UserField::Email) {
        Ok(text) => text,
        Err(error) => { return Err(error); },
    };
    let age = match read_byte(value, UserField::Age) {
        Ok(byte) => byte,
        Err(error) => { return Err(error); },
    };
    let gender = match read_text(value, UserField::Gender) {
        Ok(text) => text,
        Err(error) => { return Err(error); },
    };
    Ok(User { id, name, password, email, age, gender })
}

/// The wrapper around the record's JSON value.
#[derive(Debug)]
pub struct ParseJson(pub(crate) serde_json::Value);

impl ParseJson {
    /// The value as it is held.
    pub closed spec fn held(self) -> serde_json::Value {
        self.0
    }

    /// Wraps `held`.
    pub(crate) fn wrap(held: serde_json::Value) -> (wrapper: ParseJson)
        ensures
            wrapper.held() == held,
    {
        ParseJson(held)
    }

    /// The held value.
    pub fn get(&self) -> (value: &serde_json::Value)
        ensures
            *value == self.held(),
    {
        &self.0
    }

    /// Reads the record from the held value, and uses the wrapper up.
    pub fn from(self) -> (result: Result<User, FieldError>)
        ensures
            decodes_tree(json_tree(self.held()), result),
    {
        decode(&self.0)
    }

    /// Reads a record from `value`. The held value plays no part, and the
    /// wrapper stays as it is.
    pub fn from_value(&self, value: &serde_json::Value) -> (result: Result<User, FieldError>)
        ensures
            decodes_tree(json_tree(*value), result),
    {
        decode(value)
    }

    /// Moves the held value behind a shared-ownership pointer.
    pub fn arc(self) -> (shared: std::sync::Arc<serde_json::Value>)
        ensures
            *shared == self.held(),
    {
        std::sync::Arc::new(self.0)
    }

    /// Moves the held value behind a cooperatively scheduled mutex.
    pub fn tokio_mutex(self) -> (mutex: tokio::sync::Mutex<serde_json::Value>)
        ensures
            tokio_mutex_made_of(mutex, self.held()),
    {
        tokio_mutex_of(self.0)
    }

    /// Moves the held value behind a blocking mutex.
    pub fn mutex(self) -> (mutex: std::sync::Mutex<serde_json::Value>)
        ensures
            mutex_made_of(mutex, self.held()),
    {
        mutex_of(self.0)
    }

    /// Moves the held value into a box.
    pub fn boxed(self) -> (boxed: Box<serde_json::Value>)
        ensures
            *boxed == self.held(),
    {
        Box::new(self.0)
    }

    /// Moves the held value into a cell with run-time borrow checks.
    pub fn ref_cell(self) -> (cell: std::cell::RefCell<serde_json::Value>)
        ensures
            ref_cell_made_of(cell, self.held()),
    {
        ref_cell_of(self.0)
    }

    /// Moves the held value into a list of one item.
    pub fn vec(self) -> (list: Vec<serde_json::Value>)
        ensures
            list@ == seq![self.held()],
    {
        vec![self.0]
    }

    /// Moves the held value into a cell that checks nothing: whoever mutates
    /// through it must hold exclusive access by other means.
    pub fn unsafe_cell(self) -> (cell: std::cell::UnsafeCell<serde_json::Value>)
        ensures
            unsafe_cell_made_of(cell, self.held()),
    {
        unsafe_cell_of(self.0)
    }

    /// Moves the held value into a cell that is initialised with it.
    pub fn once_cell(self) -> (cell: std::cell::OnceCell<serde_json::Value>)
        ensures
            once_cell_made_of(cell, self.held()),
    {
        once_cell_of(self.0)
    }

    /// Reads the record from the held value and puts its fields into a map.
    /// Where the held value is no record, that is the error.
    pub fn hashmap(self) -> (result: Result<StringHashMap<FieldValue>, FormError>)
        ensures
            exists|read: Result<User, FormError>|
                read_from_tree(json_tree(self.held()), read) && map_of_read(read, result),
    {
        let read = record_from_json(&self.0);
        let ghost seen = read;
        let result = map_after(read);
        assert(read_from_tree(json_tree(self.held()), seen) && map_of_read(seen, result));
        result
    }

    /// Reads the record from the held value and writes it in its binary form.
    /// Where the held value is no record, that is the error.
    pub fn bin(self) -> (result: Result<Vec<u8>, FormError>)
        ensures
            exists|read: Result<User, FormError>|
                read_from_tree(json_tree(self.held()), read) && bin_of_read(read, result),
    {
        let read = record_from_json(&self.0);
        let ghost seen = read;
        let result = bin_after(read);
        assert(read_from_tree(json_tree(self.held()), seen) && bin_of_read(seen, result));
        result
    }

    /// Reads the record from the held value and turns it into its structured-text value.
    /// Where the held value is no record, that is the error.
    pub fn toml(self) -> (result: Result<toml::Value, FormError>)
        ensures
            exists|read: Result<User, FormError>|
                read_from_tree(json_tree(self.held()), read) && toml_of_read(read, result),
    {
        let read = record_from_json(&self.0);
        let ghost seen = read;
        let result = toml_after(read);
        assert(read_from_tree(json_tree(self.held()), seen) && toml_of_read(seen, result));
        result
    }
}

} // verus!

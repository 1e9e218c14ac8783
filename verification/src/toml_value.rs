//! The structured-text form of the record.

use vstd::prelude::*;
use crate::field_map::FieldValue;
use vstd::hash_map::StringHashMap;
use crate::forms::record_from_toml;
use crate::forms::read_from_tree;
use crate::forms::map_of_read;
use crate::forms::map_after;
use crate::forms::json_of_read;
use crate::forms::json_after;
use crate::forms::bin_of_read;
use crate::forms::bin_after;
use crate::forms::FormError;
use crate::cells::mutex_made_of;
use crate::cells::mutex_of;
use crate::cells::once_cell_made_of;
use crate::cells::once_cell_of;
use crate::cells::ref_cell_made_of;
use crate::cells::ref_cell_of;
use crate::cells::tokio_mutex_made_of;
use crate::cells::tokio_mutex_of;
use crate::cells::unsafe_cell_made_of;
use crate::cells::unsafe_cell_of;
use crate::tree::FieldError;
use crate::tree::Tree;
use crate::tree::byte_member;
use crate::tree::decodes_tree;
use crate::tree::member;
use crate::tree::record_tree;
use crate::tree::text_member;
use crate::user::User;
use crate::user::UserField;

verus! {

/// `toml::Value`. What it holds is read through [`toml_tree`].
#[verifier::external_type_specification]
#[verifier::external_body]
pub struct ExTomlValue(toml::Value);

/// What a structured-text value holds: a string is a text, an integer is that
/// integer, a table is the
/// table of its members, and anything else is other.
pub uninterp spec fn toml_tree(value: toml::Value) -> Tree;

/// Calls `toml::Value::from` on a string slice. Trusted: the value is a
/// string with that text.
#[verifier::external_body]
pub(crate) fn toml_text(text: &str) -> (value: toml::Value)
    ensures
        toml_tree(value) == Tree::Text(text@),
{
    toml::Value::from(text)
}

/// Calls `toml::Value::from` on a `u8`. Trusted: the value is that integer.
#[verifier::external_body]
pub(crate) fn toml_byte(byte: u8) -> (value: toml::Value)
    ensures
        toml_tree(value) == Tree::Integer(byte as int),
{
    toml::Value::from(byte)
}

/// Makes `toml::Value::Table` of `toml::Table::new`. Trusted: the value is a
/// table that holds nothing.
#[verifier::external_body]
pub(crate) fn toml_table() -> (value: toml::Value)
    ensures
        toml_tree(value) == Tree::Table(Map::empty()),
{
    toml::Value::Table(toml::Table::new())
}

/// Calls `toml::Table::insert` on the table that `toml::Value::as_table_mut`
/// gives. Trusted: the table then holds `value` under `key`, and everything
/// else as before.
#[verifier::external_body]
pub(crate) fn toml_insert(table: &mut toml::Value, key: &str, value: toml::Value)
    requires
        toml_tree(*old(table)) is Table,
    ensures
        toml_tree(*final(table)) == Tree::Table(
            toml_tree(*old(table))->Table_0.insert(key@, toml_tree(value)),
        ),
{
    if let Some(members) = table.as_table_mut() {
        members.insert(key.to_owned(), value);
    }
}

/// Calls `toml::Value::get` with a string key. Trusted: it returns what
/// a table holds under the key, and nothing for a missing key or a value that
/// is no table.
#[verifier::external_body]
pub(crate) fn toml_member<'a>(value: &'a toml::Value, key: &str) -> (found: Option<
    &'a toml::Value,
>)
    ensures
        match found {
            Some(inner) => toml_tree(*value) matches Tree::Table(members) && members.dom().contains(
                key@,
            ) && toml_tree(*inner) == members[key@],
            None => !(toml_tree(*value) matches Tree::Table(members) && members.dom().contains(
                key@,
            )),
        },
{
    value.get(key)
}

/// Calls `toml::Value::as_str`. Trusted: it returns the text of a string,
/// and nothing for any other value.
#[verifier::external_body]
pub(crate) fn toml_as_text<'a>(value: &'a toml::Value) -> (text: Option<&'a str>)
    ensures
        match text {
            Some(inner) => toml_tree(*value) == Tree::Text(inner@),
            None => !(toml_tree(*value) is Text),
        },
{
    value.as_str()
}

/// Calls `toml::Value::as_integer`. Trusted: it returns an integer, and
/// nothing for any other value.
#[verifier::external_body]
pub(crate) fn toml_as_integer(value: &toml::Value) -> (number: Option<i64>)
    ensures
        match number {
            Some(n) => toml_tree(*value) == Tree::Integer(n as int),
            None => !(toml_tree(*value) is Integer),
        },
{
    value.as_integer()
}

/// The structured-text value that stands for `user`: a table with each field under
/// its name.
pub fn encode(user: &User) -> (value: toml::Value)
    ensures
        toml_tree(value) == record_tree(user@),
{
    let mut table = toml_table();
    toml_insert(&mut table, UserField::Id.name(), toml_text(user.id.as_str()));
    toml_insert(&mut table, UserField::Name.name(), toml_text(user.name.as_str()));
    toml_insert(&mut table, UserField::Password.name(), toml_text(user.password.as_str()));
    toml_insert(&mut table, UserField::Email.name(), toml_text(user.email.as_str()));
    toml_insert(&mut table, UserField::Age.name(), toml_byte(user.age));
    toml_insert(&mut table, UserField::Gender.name(), toml_text(user.gender.as_str()));
    table
}

/// Reads the text of `field` from `value`.
fn read_text(value: &toml::Value, field: UserField) -> (result: Result<String, FieldError>)
    ensures
        match result {
            Ok(text) => text_member(toml_tree(*value), field) == Ok::<Seq<char>, FieldError>(text@),
            Err(error) => text_member(toml_tree(*value), field) == Err::<Seq<char>, FieldError>(
                error,
            ),
        },
{
    match toml_member(value, field.name()) {
        None => Err(FieldError::Missing(field)),
        Some(inner) => match toml_as_text(inner) {
            None => Err(FieldError::WrongType(field)),
            Some(text) => Ok(String::from_str(text)),
        },
    }
}

/// Reads the byte of `field` from `value`.
fn read_byte(value: &toml::Value, field: UserField) -> (result: Result<u8, FieldError>)
    ensures
        match result {
            Ok(byte) => byte_member(toml_tree(*value), field) == Ok::<u8, FieldError>(byte),
            Err(error) => byte_member(toml_tree(*value), field) == Err::<u8, FieldError>(error),
        },
{
    match toml_member(value, field.name()) {
        None => Err(FieldError::Missing(field)),
        Some(inner) => match toml_as_integer(inner) {
            None => Err(FieldError::WrongType(field)),
            Some(n) => if 0 <= n && n <= 255 {
                Ok(n as u8)
            } else {
                Err(FieldError::WrongType(field))
            },
        },
    }
}

/// Reads a record from `value`: a table that holds every field under its
/// name, with the field's type. The first field, in declaration order, that is
/// missing or of another type is reported.
pub fn decode(value: &toml::Value) -> (result: Result<User, FieldError>)
    ensures
        decodes_tree(toml_tree(*value), result),
{
    let id = match read_text(value, UserField::Id) {
        Ok(text) => text,
        Err(error) => { return Err(error); },
    };
    let name = match read_text(value, UserField::Name) {
        Ok(text) => text,
        Err(error) => { return Err(error); },
    };
    let password = match read_text(value, UserField::Password) {
        Ok(text) => text,
        Err(error) => { return Err(error); },
    };
    let email = match read_text(value, UserField::Email) {
        Ok(text) => text,
        Err(error) => { return Err(error); },
    };
    let age = match read_byte(value, UserField::Age) {
        Ok(byte) => byte,
        Err(error) => { return Err(error); },
    };
    let gender = match read_text(value, UserField::Gender) {
        Ok(text) => text,
        Err(error) => { return Err(error); },
    };
    Ok(User { id, name, password, email, age, gender })
}

/// The wrapper around the record's structured-text value.
#[derive(Debug)]
pub struct ParseToml(pub(crate) toml::Value);

impl ParseToml {
    /// The value as it is held.
    pub closed spec fn held(self) -> toml::Value {
        self.0
    }

    /// Wraps `held`.
    pub(crate) fn wrap(held: toml::Value) -> (wrapper: ParseToml)
        ensures
            wrapper.held() == held,
    {
        ParseToml(held)
    }

    /// The held value.
    pub fn get(&self) -> (value: &toml::Value)
        ensures
            *value == self.held(),
    {
        &self.0
    }

    /// Reads the record from the held value, and uses the wrapper up.
    pub fn from(self) -> (result: Result<User, FieldError>)
        ensures
            decodes_tree(toml_tree(self.held()), result),
    {
        decode(&self.0)
    }

    /// Reads a record from `value`. The held value plays no part, and the
    /// wrapper stays as it is.
    pub fn from_value(&self, value: &toml::Value) -> (result: Result<User, FieldError>)
        ensures
            decodes_tree(toml_tree(*value), result),
    {
        decode(value)
    }

    /// Moves the held value behind a shared-ownership pointer.
    pub fn arc(self) -> (shared: std::sync::Arc<toml::Value>)
        ensures
            *shared == self.held(),
    {
        std::sync::Arc::new(self.0)
    }

    /// Moves the held value behind a cooperatively scheduled mutex.
    pub fn tokio_mutex(self) -> (mutex: tokio::sync::Mutex<toml::Value>)
        ensures
            tokio_mutex_made_of(mutex, self.held()),
    {
        tokio_mutex_of(self.0)
    }

    /// Moves the held value behind a blocking mutex.
    pub fn mutex(self) -> (mutex: std::sync::Mutex<toml::Value>)
        ensures
            mutex_made_of(mutex, self.held()),
    {
        mutex_of(self.0)
    }

    /// Moves the held value into a box.
    pub fn boxed(self) -> (boxed: Box<toml::Value>)
        ensures
            *boxed == self.held(),
    {
        Box::new(self.0)
    }

    /// Moves the held value into a cell with run-time borrow checks.
    pub fn ref_cell(self) -> (cell: std::cell::RefCell<toml::Value>)
        ensures
            ref_cell_made_of(cell, self.held()),
    {
        ref_cell_of(self.0)
    }

    /// Moves the held value into a list of one item.
    pub fn vec(self) -> (list: Vec<toml::Value>)
        ensures
            list@ == seq![self.held()],
    {
        vec![self.0]
    }

    /// Moves the held value into a cell that checks nothing: whoever mutates
    /// through it must hold exclusive access by other means.
    pub fn unsafe_cell(self) -> (cell: std::cell::UnsafeCell<toml::Value>)
        ensures
            unsafe_cell_made_of(cell, self.held()),
    {
        unsafe_cell_of(self.0)
    }

    /// Moves the held value into a cell that is initialised with it.
    pub fn once_cell(self) -> (cell: std::cell::OnceCell<toml::Value>)
        ensures
            once_cell_made_of(cell, self.held()),
    {
        once_cell_of(self.0)
    }

    /// Reads the record from the held value and puts its fields into a map.
    /// Where the held value is no record, that is the error.
    pub fn hashmap(self) -> (result: Result<StringHashMap<FieldValue>, FormError>)
        ensures
            exists|read: Result<User, FormError>|
                read_from_tree(toml_tree(self.held()), read) && map_of_read(read, result),
    {
        let read = record_from_toml(&self.0);
        let ghost seen = read;
        let result = map_after(read);
        assert(read_from_tree(toml_tree(self.held()), seen) && map_of_read(seen, result));
        result
    }

    /// Reads the record from the held value and writes it in its binary form.
    /// Where the held value is no record, that is the error.
    pub fn bin(self) -> (result: Result<Vec<u8>, FormError>)
        ensures
            exists|read: Result<User, FormError>|
                read_from_tree(toml_tree(self.held()), read) && bin_of_read(read, result),
    {
        let read = record_from_toml(&self.0);
        let ghost seen = read;
        let result = bin_after(read);
        assert(read_from_tree(toml_tree(self.held()), seen) && bin_of_read(seen, result));
        result
    }

    /// Reads the record from the held value and turns it into its JSON value.
    /// Where the held value is no record, that is the error.
    pub fn json(self) -> (result: Result<serde_json::Value, FormError>)
        ensures
            exists|read: Result<User, FormError>|
                read_from_tree(toml_tree(self.held()), read) && json_of_read(read, result),
    {
        let read = record_from_toml(&self.0);
        let ghost seen = read;
        let result = json_after(read);
        assert(read_from_tree(toml_tree(self.held()), seen) && json_of_read(seen, result));
        result
    }
}

} // verus!

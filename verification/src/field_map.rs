//! The record as a map from field names to field values.

use vstd::prelude::*;
use crate::forms::record_from_map;
use crate::forms::read_from_map;
use crate::forms::toml_of_read;
use crate::forms::toml_after;
use crate::forms::json_of_read;
use crate::forms::json_after;
use crate::forms::bin_of_read;
use crate::forms::bin_after;
use crate::forms::FormError;
use vstd::hash_map::StringHashMap;
use crate::cells::mutex_made_of;
use crate::cells::mutex_of;
use crate::cells::once_cell_made_of;
use crate::cells::once_cell_of;
use crate::cells::ref_cell_made_of;
use crate::cells::ref_cell_of;
use crate::cells::tokio_mutex_made_of;
use crate::cells::tokio_mutex_of;
use crate::cells::unsafe_cell_made_of;
use crate::cells::unsafe_cell_of;
use crate::user::User;
use crate::user::UserField;

verus! {

/// The value of a field: one variant for each type that a field of the
/// record has.
#[derive(Clone, Debug, PartialEq, Eq)]
pub enum FieldValue {
    Text(String),
    Byte(u8),
}

/// A type that a field of the record has.
pub trait FieldType: Sized {
    /// `value` as this type, if it is of this type.
    spec fn typed(value: FieldValue) -> Option<Self>;

    /// `value` as this type; nothing if it is of another type.
    fn pick(value: &FieldValue) -> (found: Option<&Self>)
        ensures
            match found {
                Some(inner) => Self::typed(*value) == Some(*inner),
                None => Self::typed(*value) is None,
            },
    ;
}

impl FieldType for String {
    open spec fn typed(value: FieldValue) -> Option<String> {
        match value {
            FieldValue::Text(text) => Some(text),
            FieldValue::Byte(_) => None,
        }
    }

    fn pick(value: &FieldValue) -> (found: Option<&String>) {
        match value {
            FieldValue::Text(text) => Some(text),
            FieldValue::Byte(_) => None,
        }
    }
}

impl FieldType for u8 {
    open spec fn typed(value: FieldValue) -> Option<u8> {
        match value {
            FieldValue::Text(_) => None,
            FieldValue::Byte(byte) => Some(byte),
        }
    }

    fn pick(value: &FieldValue) -> (found: Option<&u8>) {
        match value {
            FieldValue::Text(_) => None,
            FieldValue::Byte(byte) => Some(byte),
        }
    }
}

/// The map that stands for `user`: the value of each field under the field's
/// name.
pub open spec fn record_map(user: User) -> Map<Seq<char>, FieldValue> {
    Map::empty().insert(UserField::Id.key(), FieldValue::Text(user.id)).insert(
        UserField::Name.key(),
        FieldValue::Text(user.name),
    ).insert(UserField::Password.key(), FieldValue::Text(user.password)).insert(
        UserField::Email.key(),
        FieldValue::Text(user.email),
    ).insert(UserField::Age.key(), FieldValue::Byte(user.age)).insert(
        UserField::Gender.key(),
        FieldValue::Text(user.gender),
    )
}

/// What a lookup of `key` as the type `T` finds in `fields`: the value under
/// the key, if there is one and it is of that type.
pub open spec fn looked_up<T: FieldType>(fields: Map<Seq<char>, FieldValue>, key: Seq<char>)
    -> Option<T> {
    if fields.dom().contains(key) {
        T::typed(fields[key])
    } else {
        None
    }
}

/// The map that holds each field of `user` under the field's name.
pub fn fields_of(user: User) -> (fields: StringHashMap<FieldValue>)
    ensures
        fields@ == record_map(user),
{
    let mut fields = StringHashMap::new();
    fields.insert(String::from_str(UserField::Id.name()), FieldValue::Text(user.id));
    fields.insert(String::from_str(UserField::Name.name()), FieldValue::Text(user.name));
    fields.insert(String::from_str(UserField::Password.name()), FieldValue::Text(user.password));
    fields.insert(String::from_str(UserField::Email.name()), FieldValue::Text(user.email));
    fields.insert(String::from_str(UserField::Age.name()), FieldValue::Byte(user.age));
    fields.insert(String::from_str(UserField::Gender.name()), FieldValue::Text(user.gender));
    fields
}

/// The wrapper around the map from field names to field values.
pub struct ParseHashMap(pub(crate) StringHashMap<FieldValue>);

impl View for ParseHashMap {
    type V = Map<Seq<char>, FieldValue>;

    open spec fn view(&self) -> Map<Seq<char>, FieldValue> {
        self.held()@
    }
}

impl ParseHashMap {
    /// The map as it is held.
    pub closed spec fn held(self) -> StringHashMap<FieldValue> {
        self.0
    }

    /// Wraps `held`.
    pub(crate) fn wrap(held: StringHashMap<FieldValue>) -> (wrapper: ParseHashMap)
        ensures
            wrapper.held() == held,
    {
        ParseHashMap(held)
    }

    /// Looks up the value under `key` as a value of type `T`. A key that the
    /// map does not hold, and a value of another type, give nothing.
    pub fn get<T: FieldType>(&self, key: &str) -> (found: Option<&T>)
        ensures
            match found {
                Some(inner) => looked_up::<T>(self@, key@) == Some(*inner),
                None => looked_up::<T>(self@, key@) is None,
            },
    {
        match self.0.get(key) {
            Some(value) => T::pick(value),
            None => None,
        }
    }

    /// Moves the held map behind a shared-ownership pointer.
    pub fn arc(self) -> (shared: std::sync::Arc<StringHashMap<FieldValue>>)
        ensures
            *shared == self.held(),
    {
        std::sync::Arc::new(self.0)
    }

    /// Moves the held map behind a cooperatively scheduled mutex.
    pub fn tokio_mutex(self) -> (mutex: tokio::sync::Mutex<StringHashMap<FieldValue>>)
        ensures
            tokio_mutex_made_of(mutex, self.held()),
    {
        tokio_mutex_of(self.0)
    }

    /// Moves the held map behind a blocking mutex.
    pub fn mutex(self) -> (mutex: std::sync::Mutex<StringHashMap<FieldValue>>)
        ensures
            mutex_made_of(mutex, self.held()),
    {
        mutex_of(self.0)
    }

    /// Moves the held map into a box.
    pub fn boxed(self) -> (boxed: Box<StringHashMap<FieldValue>>)
        ensures
            *boxed == self.held(),
    {
        Box::new(self.0)
    }

    /// Moves the held map into a cell with run-time borrow checks.
    pub fn ref_cell(self) -> (cell: std::cell::RefCell<StringHashMap<FieldValue>>)
        ensures
            ref_cell_made_of(cell, self.held()),
    {
        ref_cell_of(self.0)
    }

    /// Moves the held map into a list of one item.
    pub fn vec(self) -> (list: Vec<StringHashMap<FieldValue>>)
        ensures
            list@ == seq![self.held()],
    {
        vec![self.0]
    }

    /// Moves the held map into a cell that checks nothing: whoever mutates
    /// through it must hold exclusive access by other means.
    pub fn unsafe_cell(self) -> (cell: std::cell::UnsafeCell<StringHashMap<FieldValue>>)
        ensures
            unsafe_cell_made_of(cell, self.held()),
    {
        unsafe_cell_of(self.0)
    }

    /// Moves the held map into a cell that is initialised with it.
    pub fn once_cell(self) -> (cell: std::cell::OnceCell<StringHashMap<FieldValue>>)
        ensures
            once_cell_made_of(cell, self.held()),
    {
        once_cell_of(self.0)
    }

    /// Reads the record from the held map and writes it in its binary form.
    /// Where the held map is no record, that is the error.
    pub fn bin(self) -> (result: Result<Vec<u8>, FormError>)
        ensures
            exists|read: Result<User, FormError>|
                read_from_map(self@, read) && bin_of_read(read, result),
    {
        let read = record_from_map(&self.0);
        let ghost seen = read;
        let result = bin_after(read);
        assert(read_from_map(self@, seen) && bin_of_read(seen, result));
        result
    }

    /// Reads the record from the held map and turns it into its structured-text value.
    /// Where the held map is no record, that is the error.
    pub fn toml(self) -> (result: Result<toml::Value, FormError>)
        ensures
            exists|read: Result<User, FormError>|
                read_from_map(self@, read) && toml_of_read(read, result),
    {
        let read = record_from_map(&self.0);
        let ghost seen = read;
        let result = toml_after(read);
        assert(read_from_map(self@, seen) && toml_of_read(seen, result));
        result
    }

    /// Reads the record from the held map and turns it into its JSON value.
    /// Where the held map is no record, that is the error.
    pub fn json(self) -> (result: Result<serde_json::Value, FormError>)
        ensures
            exists|read: Result<User, FormError>|
                read_from_map(self@, read) && json_of_read(read, result),
    {
        let read = record_from_map(&self.0);
        let ghost seen = read;
        let result = json_after(read);
        assert(read_from_map(self@, seen) && json_of_read(seen, result));
        result
    }
}

} // verus!

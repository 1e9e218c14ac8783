//! The field selector, and the wrappers around a single field's value.

use vstd::prelude::*;
use vstd::hash_map::StringHashMap;
use crate::binary::BinError;
use crate::binary::bincode_encode_byte;
use crate::binary::bincode_encode_text;
use crate::binary::bincode_text_decoding;
use crate::binary::bincode_text_encoding;
use crate::binary::byte_decoding;
use crate::binary::text_bound;
use crate::cells::mutex_made_of;
use crate::cells::mutex_of;
use crate::cells::once_cell_made_of;
use crate::cells::once_cell_of;
use crate::cells::ref_cell_made_of;
use crate::cells::ref_cell_of;
use crate::cells::tokio_mutex_made_of;
use crate::cells::tokio_mutex_of;
use crate::cells::unsafe_cell_made_of;
use crate::cells::unsafe_cell_of;
use crate::entry::Parse;
use crate::field_map::FieldValue;
use crate::json_value::json_byte;
use crate::json_value::json_text;
use crate::json_value::json_tree;
use crate::toml_value::toml_byte;
use crate::toml_value::toml_text;
use crate::toml_value::toml_tree;
use crate::tree::Tree;
use crate::user::UserField;

verus! {

/// The holder of one field's value: it owns the value and remembers which
/// field the value was moved out of.
#[derive(Debug)]
pub struct FieldHolder<T> {
    pub field: UserField,
    pub value: T,
}

/// What the selector returns for a field: it owns exactly one holder.
#[derive(Debug)]
pub struct Field<T>(pub FieldHolder<T>);

/// The selector of a record's fields. It owns the top-level wrapper; selecting
/// a field moves the field out of the record and uses the selector up, so one
/// selector yields one field.
#[derive(Debug)]
pub struct FieldSelector(pub Parse);

/// A field's value behind a shared-ownership pointer.
#[verifier::reject_recursive_types(T)]
pub struct FieldArc<T>(pub std::sync::Arc<T>);

/// A field's value behind a cooperatively scheduled mutex.
#[verifier::reject_recursive_types(T)]
pub struct FieldTokioMutex<T>(pub tokio::sync::Mutex<T>);

/// A field's value behind a blocking mutex.
#[verifier::reject_recursive_types(T)]
pub struct FieldMutex<T>(pub std::sync::Mutex<T>);

/// A field's value in a box.
#[verifier::reject_recursive_types(T)]
pub struct FieldBox<T>(pub Box<T>);

/// A field's value in a cell with run-time borrow checks.
#[verifier::reject_recursive_types(T)]
pub struct FieldRefCell<T>(pub std::cell::RefCell<T>);

/// A field's value in a list.
#[verifier::reject_recursive_types(T)]
pub struct FieldVec<T>(pub Vec<T>);

/// A field's value in a cell that checks nothing.
#[verifier::reject_recursive_types(T)]
pub struct FieldUnsafeCell<T>(pub std::cell::UnsafeCell<T>);

/// A field's value in a cell that is initialised once.
#[verifier::reject_recursive_types(T)]
pub struct FieldOnceCell<T>(pub std::cell::OnceCell<T>);

/// A field's value in its binary form.
#[derive(Debug)]
pub struct FieldBin(pub Vec<u8>);

/// A field's value as a JSON value.
#[derive(Debug)]
pub struct FieldJson(pub serde_json::Value);

/// A field's value as a structured-text value.
#[derive(Debug)]
pub struct FieldToml(pub toml::Value);

/// A field's value in a map, under the field's name.
pub struct FieldHashMap(pub StringHashMap<FieldValue>);

/// Wraps what the codec returned for a field: its bytes, or an encode error
/// that carries its diagnostic.
pub fn field_encoding(outcome: Result<Vec<u8>, bincode::error::EncodeError>) -> (result: Result<
    FieldBin,
    BinError,
>)
    ensures
        match (outcome, result) {
            (Ok(bytes), Ok(wrapper)) => wrapper.0 == bytes,
            (Err(cause), Err(BinError::Encode(carried))) => carried == cause,
            _ => false,
        },
{
    match outcome {
        Ok(bytes) => Ok(FieldBin(bytes)),
        Err(error) => Err(BinError::Encode(error)),
    }
}

impl FieldSelector {
    /// Moves the field `id` out of the record.
    pub fn id(self) -> (field: Field<String>)
        ensures
            field.0.field == UserField::Id,
            field.0.value == self.0.record().id,
    {
        Field(FieldHolder { field: UserField::Id, value: self.0.into_record().id })
    }

    /// Moves the field `name` out of the record.
    pub fn name(self) -> (field: Field<String>)
        ensures
            field.0.field == UserField::Name,
            field.0.value == self.0.record().name,
    {
        Field(FieldHolder { field: UserField::Name, value: self.0.into_record().name })
    }

    /// Moves the field `password` out of the record.
    pub fn password(self) -> (field: Field<String>)
        ensures
            field.0.field == UserField::Password,
            field.0.value == self.0.record().password,
    {
        Field(FieldHolder { field: UserField::Password, value: self.0.into_record().password })
    }

    /// Moves the field `email` out of the record.
    pub fn email(self) -> (field: Field<String>)
        ensures
            field.0.field == UserField::Email,
            field.0.value == self.0.record().email,
    {
        Field(FieldHolder { field: UserField::Email, value: self.0.into_record().email })
    }

    /// Moves the field `age` out of the record.
    pub fn age(self) -> (field: Field<u8>)
        ensures
            field.0.field == UserField::Age,
            field.0.value == self.0.record().age,
    {
        Field(FieldHolder { field: UserField::Age, value: self.0.into_record().age })
    }

    /// Moves the field `gender` out of the record.
    pub fn gender(self) -> (field: Field<String>)
        ensures
            field.0.field == UserField::Gender,
            field.0.value == self.0.record().gender,
    {
        Field(FieldHolder { field: UserField::Gender, value: self.0.into_record().gender })
    }
}

impl<T> Field<T> {
    /// Moves the field's value behind a shared-ownership pointer.
    pub fn arc(self) -> (wrapper: FieldArc<T>)
        ensures
            *wrapper.0 == self.0.value,
    {
        FieldArc(std::sync::Arc::new(self.0.value))
    }

    /// Moves the field's value behind a cooperatively scheduled mutex.
    pub fn tokio_mutex(self) -> (wrapper: FieldTokioMutex<T>)
        ensures
            tokio_mutex_made_of(wrapper.0, self.0.value),
    {
        FieldTokioMutex(tokio_mutex_of(self.0.value))
    }

    /// Moves the field's value behind a blocking mutex.
    pub fn mutex(self) -> (wrapper: FieldMutex<T>)
        ensures
            mutex_made_of(wrapper.0, self.0.value),
    {
        FieldMutex(mutex_of(self.0.value))
    }

    /// Moves the field's value into a box.
    pub fn boxed(self) -> (wrapper: FieldBox<T>)
        ensures
            *wrapper.0 == self.0.value,
    {
        FieldBox(Box::new(self.0.value))
    }

    /// Moves the field's value into a cell with run-time borrow checks.
    pub fn ref_cell(self) -> (wrapper: FieldRefCell<T>)
        ensures
            ref_cell_made_of(wrapper.0, self.0.value),
    {
        FieldRefCell(ref_cell_of(self.0.value))
    }

    /// Moves the field's value into a list of one item.
    pub fn vec(self) -> (wrapper: FieldVec<T>)
        ensures
            wrapper.0@ == seq![self.0.value],
    {
        FieldVec(vec![self.0.value])
    }

    /// Moves the field's value into a cell that checks nothing.
    pub fn unsafe_cell(self) -> (wrapper: FieldUnsafeCell<T>)
        ensures
            unsafe_cell_made_of(wrapper.0, self.0.value),
    {
        FieldUnsafeCell(unsafe_cell_of(self.0.value))
    }

    /// Moves the field's value into a cell that is initialised with it.
    pub fn once_cell(self) -> (wrapper: FieldOnceCell<T>)
        ensures
            once_cell_made_of(wrapper.0, self.0.value),
    {
        FieldOnceCell(once_cell_of(self.0.value))
    }
}

impl Field<String> {
    /// Writes the field's text in its binary form. This always succeeds, and
    /// the codec reads the text back from the bytes.
    pub fn bin(self) -> (result: Result<FieldBin, BinError>)
        ensures
            result matches Ok(wrapper) && wrapper.0@ == bincode_text_encoding(self.0.value@)
                && wrapper.0@.len() <= text_bound(self.0.value@.len()) && bincode_text_decoding(
                wrapper.0@,
            ) == Some(self.0.value@),
    {
        field_encoding(bincode_encode_text(self.0.value.as_str()))
    }

    /// Turns the field's text into a JSON string. This always succeeds.
    pub fn json(self) -> (result: Result<FieldJson, core::convert::Infallible>)
        ensures
            result matches Ok(wrapper) && json_tree(wrapper.0) == Tree::Text(self.0.value@),
    {
        Ok(FieldJson(json_text(self.0.value.as_str())))
    }

    /// Turns the field's text into a structured-text string. This always
    /// succeeds.
    pub fn toml(self) -> (result: Result<FieldToml, core::convert::Infallible>)
        ensures
            result matches Ok(wrapper) && toml_tree(wrapper.0) == Tree::Text(self.0.value@),
    {
        Ok(FieldToml(toml_text(self.0.value.as_str())))
    }

    /// Puts the field's text into a map, under the field's name.
    pub fn hashmap(self) -> (wrapper: FieldHashMap)
        ensures
            wrapper.0@ == Map::<Seq<char>, FieldValue>::empty().insert(
                self.0.field.key(),
                FieldValue::Text(self.0.value),
            ),
    {
        let mut fields = StringHashMap::new();
        fields.insert(String::from_str(self.0.field.name()), FieldValue::Text(self.0.value));
        FieldHashMap(fields)
    }
}

impl Field<u8> {
    /// Writes the field's byte in its binary form: the byte itself. This
    /// always succeeds, and the codec reads the byte back.
    pub fn bin(self) -> (result: Result<FieldBin, BinError>)
        ensures
            result matches Ok(wrapper) && wrapper.0@ == seq![self.0.value] && byte_decoding(
                wrapper.0@,
            ) == Some(self.0.value),
    {
        field_encoding(bincode_encode_byte(self.0.value))
    }

    /// Turns the field's byte into a JSON number. This always succeeds.
    pub fn json(self) -> (result: Result<FieldJson, core::convert::Infallible>)
        ensures
            result matches Ok(wrapper) && json_tree(wrapper.0) == Tree::Integer(
                self.0.value as int,
            ),
    {
        Ok(FieldJson(json_byte(self.0.value)))
    }

    /// Turns the field's byte into a structured-text integer. This always
    /// succeeds.
    pub fn toml(self) -> (result: Result<FieldToml, core::convert::Infallible>)
        ensures
            result matches Ok(wrapper) && toml_tree(wrapper.0) == Tree::Integer(
                self.0.value as int,
            ),
    {
        Ok(FieldToml(toml_byte(self.0.value)))
    }

    /// Puts the field's byte into a map, under the field's name.
    pub fn hashmap(self) -> (wrapper: FieldHashMap)
        ensures
            wrapper.0@ == Map::<Seq<char>, FieldValue>::empty().insert(
                self.0.field.key(),
                FieldValue::Byte(self.0.value),
            ),
    {
        let mut fields = StringHashMap::new();
        fields.insert(String::from_str(self.0.field.name()), FieldValue::Byte(self.0.value));
        FieldHashMap(fields)
    }
}

} // verus!

//! The top-level wrapper of the record, and the method that leads to it.

use vstd::prelude::*;
use crate::binary::BinError;
use crate::binary::ParseBin;
use crate::binary::bincode_encode;
use crate::binary::LENGTH_ALLOWANCE;
use crate::binary::encoding_bound;
use crate::binary::bincode_decoding;
use crate::binary::record_encoding;
use crate::cells::mutex_made_of;
use crate::cells::mutex_of;
use crate::cells::once_cell_made_of;
use crate::cells::once_cell_of;
use crate::cells::ref_cell_made_of;
use crate::cells::ref_cell_of;
use crate::cells::tokio_mutex_made_of;
use crate::cells::tokio_mutex_of;
use crate::cells::unsafe_cell_made_of;
use crate::cells::unsafe_cell_of;
use crate::containers::ParseArc;
use crate::containers::ParseBox;
use crate::containers::ParseMutex;
use crate::containers::ParseOnceCell;
use crate::containers::ParseRefCell;
use crate::containers::ParseTokioMutex;
use crate::containers::ParseUnsafeCell;
use crate::containers::ParseVec;
use crate::field_map::ParseHashMap;
use crate::field_map::fields_of;
use crate::field_map::record_map;
use crate::fields::FieldSelector;
use crate::json_value::ParseJson;
use crate::json_value::json_tree;
use crate::toml_value::ParseToml;
use crate::toml_value::toml_tree;
use crate::tree::record_tree;
use crate::user::User;
use crate::user::UserView;

verus! {

/// The top-level wrapper: it owns the record and leads to every other
/// wrapper.
#[derive(Debug)]
pub struct Parse(pub(crate) User);

impl View for Parse {
    type V = UserView;

    open spec fn view(&self) -> UserView {
        self.record()@
    }
}

impl User {
    /// Starts the chain of conversions: uses the record up and returns the
    /// wrapper that owns it.
    pub fn parse(self) -> (wrapper: Parse)
        ensures
            wrapper.record() == self,
    {
        Parse(self)
    }
}

impl Parse {
    /// The record as it is held.
    pub closed spec fn record(self) -> User {
        self.0
    }

    /// Hands out the record.
    pub(crate) fn into_record(self) -> (record: User)
        ensures
            record == self.record(),
    {
        self.0
    }

    /// Leads to the fields: the selector owns the wrapper, and hands out one
    /// field.
    pub fn field(self) -> (selector: FieldSelector)
        ensures
            selector.0 == self,
    {
        FieldSelector(self)
    }

    /// Moves the record behind a shared-ownership pointer.
    pub fn arc(self) -> (wrapper: ParseArc)
        ensures
            *wrapper.held() == self.record(),
    {
        ParseArc::wrap(std::sync::Arc::new(self.0))
    }

    /// Moves the record behind a cooperatively scheduled mutex.
    pub fn tokio_mutex(self) -> (wrapper: ParseTokioMutex)
        ensures
            tokio_mutex_made_of(wrapper.held(), self.record()),
    {
        ParseTokioMutex::wrap(tokio_mutex_of(self.0))
    }

    /// Turns the record into the map from field names to field values.
    pub fn hashmap(self) -> (wrapper: ParseHashMap)
        ensures
            wrapper@ == record_map(self.record()),
    {
        ParseHashMap::wrap(fields_of(self.0))
    }

    /// Moves the record behind a blocking mutex.
    pub fn mutex(self) -> (wrapper: ParseMutex)
        ensures
            mutex_made_of(wrapper.held(), self.record()),
    {
        ParseMutex::wrap(mutex_of(self.0))
    }

    /// Moves the record into a box.
    pub fn boxed(self) -> (wrapper: ParseBox)
        ensures
            *wrapper.held() == self.record(),
    {
        ParseBox::wrap(Box::new(self.0))
    }

    /// Moves the record into a cell with run-time borrow checks.
    pub fn ref_cell(self) -> (wrapper: ParseRefCell)
        ensures
            ref_cell_made_of(wrapper.held(), self.record()),
    {
        ParseRefCell::wrap(ref_cell_of(self.0))
    }

    /// Writes the record in its binary form: the fields in declaration order.
    /// This always succeeds, and the codec reads the record back from the
    /// bytes under every limit that covers them.
    pub fn bin(self) -> (result: Result<ParseBin, BinError>)
        ensures
            result matches Ok(wrapper) && wrapper@ == record_encoding(self@) && wrapper@.len()
                <= encoding_bound(self@) && forall|limit: usize|
                wrapper@.len() + LENGTH_ALLOWANCE <= limit ==> #[trigger] bincode_decoding(
                    wrapper@,
                    limit,
                ) == Some(self@),
    {
        ParseBin::from_encoding(bincode_encode(&self.0))
    }

    /// Turns the record into its structured-text value: a table with each
    /// field under its name. This always succeeds.
    pub fn toml(self) -> (result: Result<ParseToml, core::convert::Infallible>)
        ensures
            result matches Ok(wrapper) && toml_tree(wrapper.held()) == record_tree(self@),
    {
        Ok(ParseToml::wrap(crate::toml_value::encode(&self.0)))
    }

    /// Turns the record into its JSON value: an object with each field under
    /// its name. This always succeeds.
    pub fn json(self) -> (result: Result<ParseJson, core::convert::Infallible>)
        ensures
            result matches Ok(wrapper) && json_tree(wrapper.held()) == record_tree(self@),
    {
        Ok(ParseJson::wrap(crate::json_value::encode(&self.0)))
    }

    /// Moves the record into a list of one item.
    pub fn vec(self) -> (wrapper: ParseVec)
        ensures
            wrapper.held()@ == seq![self.record()],
    {
        ParseVec::wrap(vec![self.0])
    }

    /// Moves the record into a cell that checks nothing.
    pub fn unsafe_cell(self) -> (wrapper: ParseUnsafeCell)
        ensures
            unsafe_cell_made_of(wrapper.held(), self.record()),
    {
        ParseUnsafeCell::wrap(unsafe_cell_of(self.0))
    }

    /// Moves the record into a cell that is initialised with it.
    pub fn once_cell(self) -> (wrapper: ParseOnceCell)
        ensures
            once_cell_made_of(wrapper.held(), self.record()),
    {
        let ghost record = self.0;
        ParseOnceCell::wrap(once_cell_of(self.0), Ghost(record))
    }

    /// Reads every field at once, by reference, in declaration order.
    pub fn tuple(&self) -> (fields: (&String, &String, &String, &String, &u8, &String))
        ensures
            *fields.0 == self.record().id,
            *fields.1 == self.record().name,
            *fields.2 == self.record().password,
            *fields.3 == self.record().email,
            *fields.4 == self.record().age,
            *fields.5 == self.record().gender,
    {
        (&self.0.id, &self.0.name, &self.0.password, &self.0.email, &self.0.age, &self.0.gender)
    }
}

} // verus!

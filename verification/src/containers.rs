//! The wrappers around the record in an ownership or concurrency container.

use vstd::prelude::*;
use crate::cells::unsafe_cell_held;
use crate::cells::unsafe_cell_gave;
use crate::cells::ref_cell_held;
use crate::cells::ref_cell_gave;
use crate::cells::tokio_mutex_held;
use crate::cells::tokio_mutex_gave;
use crate::cells::mutex_held;
use crate::cells::mutex_gave;
use crate::forms::toml_form;
use crate::forms::map_form;
use crate::forms::json_form;
use crate::forms::bin_form;
use crate::forms::is_toml_of;
use crate::forms::is_json_of;
use crate::forms::is_bin_of;
use crate::forms::FormError;
use crate::field_map::record_map;
use crate::field_map::FieldValue;
use vstd::hash_map::StringHashMap;
use crate::cells::mutex_made_of;
use crate::cells::mutex_of;
use crate::cells::once_cell_made_of;
use crate::cells::once_cell_of;
use crate::cells::ref_cell_made_of;
use crate::cells::ref_cell_of;
use crate::cells::tokio_mutex_made_of;
use crate::cells::tokio_mutex_of;
use crate::cells::unsafe_cell_made_of;
use crate::cells::unsafe_cell_of;
use crate::cells::once_cell_gives;
use crate::cells::once_cell_read;
use crate::user::User;

verus! {

/// The wrapper around the shared-ownership pointer to the record.
pub struct ParseArc(pub(crate) std::sync::Arc<User>);

impl ParseArc {
    /// The pointer as it is held.
    pub closed spec fn held(self) -> std::sync::Arc<User> {
        self.0
    }

    /// Wraps `held`.
    pub(crate) fn wrap(held: std::sync::Arc<User>) -> (wrapper: ParseArc)
        ensures
            wrapper.held() == held,
    {
        ParseArc(held)
    }

    /// Hands out the held pointer and uses the wrapper up.
    pub fn get(self) -> (held: std::sync::Arc<User>)
        ensures
            held == self.held(),
    {
        self.0
    }

    /// Moves the held pointer behind a cooperatively scheduled mutex.
    pub fn tokio_mutex(self) -> (mutex: tokio::sync::Mutex<std::sync::Arc<User>>)
        ensures
            tokio_mutex_made_of(mutex, self.held()),
    {
        tokio_mutex_of(self.0)
    }

    /// Moves the held pointer behind a blocking mutex.
    pub fn mutex(self) -> (mutex: std::sync::Mutex<std::sync::Arc<User>>)
        ensures
            mutex_made_of(mutex, self.held()),
    {
        mutex_of(self.0)
    }

    /// Moves the held pointer into a box.
    pub fn boxed(self) -> (boxed: Box<std::sync::Arc<User>>)
        ensures
            *boxed == self.held(),
    {
        Box::new(self.0)
    }

    /// Moves the held pointer into a cell with run-time borrow checks.
    pub fn ref_cell(self) -> (cell: std::cell::RefCell<std::sync::Arc<User>>)
        ensures
            ref_cell_made_of(cell, self.held()),
    {
        ref_cell_of(self.0)
    }

    /// Moves the held pointer into a list of one item.
    pub fn vec(self) -> (list: Vec<std::sync::Arc<User>>)
        ensures
            list@ == seq![self.held()],
    {
        vec![self.0]
    }

    /// Moves the held pointer into a cell that checks nothing: whoever mutates
    /// through it must hold exclusive access by other means.
    pub fn unsafe_cell(self) -> (cell: std::cell::UnsafeCell<std::sync::Arc<User>>)
        ensures
            unsafe_cell_made_of(cell, self.held()),
    {
        unsafe_cell_of(self.0)
    }

    /// Moves the held pointer into a cell that is initialised with it.
    pub fn once_cell(self) -> (cell: std::cell::OnceCell<std::sync::Arc<User>>)
        ensures
            once_cell_made_of(cell, self.held()),
    {
        once_cell_of(self.0)
    }

    /// Puts the fields of the record behind the pointer into a map, each under its name.
    pub fn hashmap(self) -> (fields: StringHashMap<FieldValue>)
        ensures
            fields@ == record_map(*self.held()),
    {
        map_form(&*self.0)
    }

    /// Writes the record behind the pointer in its binary form.
    /// This always succeeds.
    pub fn bin(self) -> (result: Result<Vec<u8>, FormError>)
        ensures
            is_bin_of((*self.held())@, result),
    {
        bin_form(&*self.0)
    }

    /// Turns the record behind the pointer into its structured-text value.
    /// This always succeeds.
    pub fn toml(self) -> (result: Result<toml::Value, FormError>)
        ensures
            is_toml_of((*self.held())@, result),
    {
        toml_form(&*self.0)
    }

    /// Turns the record behind the pointer into its JSON value.
    /// This always succeeds.
    pub fn json(self) -> (result: Result<serde_json::Value, FormError>)
        ensures
            is_json_of((*self.held())@, result),
    {
        json_form(&*self.0)
    }
}

/// The wrapper around the record behind a cooperatively scheduled mutex.
pub struct ParseTokioMutex(pub(crate) tokio::sync::Mutex<User>);

impl ParseTokioMutex {
    /// The mutex as it is held.
    pub closed spec fn held(self) -> tokio::sync::Mutex<User> {
        self.0
    }

    /// Wraps `held`.
    pub(crate) fn wrap(held: tokio::sync::Mutex<User>) -> (wrapper: ParseTokioMutex)
        ensures
            wrapper.held() == held,
    {
        ParseTokioMutex(held)
    }

    /// Hands out the held mutex and uses the wrapper up.
    pub fn get(self) -> (held: tokio::sync::Mutex<User>)
        ensures
            held == self.held(),
    {
        self.0
    }

    /// Moves the held mutex behind a shared-ownership pointer.
    pub fn arc(self) -> (shared: std::sync::Arc<tokio::sync::Mutex<User>>)
        ensures
            *shared == self.held(),
    {
        std::sync::Arc::new(self.0)
    }

    /// Moves the held mutex behind a blocking mutex.
    pub fn mutex(self) -> (mutex: std::sync::Mutex<tokio::sync::Mutex<User>>)
        ensures
            mutex_made_of(mutex, self.held()),
    {
        mutex_of(self.0)
    }

    /// Moves the held mutex into a box.
    pub fn boxed(self) -> (boxed: Box<tokio::sync::Mutex<User>>)
        ensures
            *boxed == self.held(),
    {
        Box::new(self.0)
    }

    /// Moves the held mutex into a cell with run-time borrow checks.
    pub fn ref_cell(self) -> (cell: std::cell::RefCell<tokio::sync::Mutex<User>>)
        ensures
            ref_cell_made_of(cell, self.held()),
    {
        ref_cell_of(self.0)
    }

    /// Moves the held mutex into a list of one item.
    pub fn vec(self) -> (list: Vec<tokio::sync::Mutex<User>>)
        ensures
            list@ == seq![self.held()],
    {
        vec![self.0]
    }

    /// Moves the held mutex into a cell that checks nothing: whoever mutates
    /// through it must hold exclusive access by other means.
    pub fn unsafe_cell(self) -> (cell: std::cell::UnsafeCell<tokio::sync::Mutex<User>>)
        ensures
            unsafe_cell_made_of(cell, self.held()),
    {
        unsafe_cell_of(self.0)
    }

    /// Moves the held mutex into a cell that is initialised with it.
    pub fn once_cell(self) -> (cell: std::cell::OnceCell<tokio::sync::Mutex<User>>)
        ensures
            once_cell_made_of(cell, self.held()),
    {
        once_cell_of(self.0)
    }

    /// Puts the fields of the record that the mutex gives when it is taken
    /// apart into a map, each under its name.
    pub fn hashmap(self) -> (fields: StringHashMap<FieldValue>)
        ensures
            exists|record: User|
                tokio_mutex_gave(self.held(), record) && fields@ == record_map(record),
    {
        let record = tokio_mutex_held(self.0);
        let fields = map_form(&record);
        assert(tokio_mutex_gave(self.held(), record) && fields@ == record_map(record));
        fields
    }

    /// Writes the record that the mutex gives when it is taken apart in its binary form.
    /// This always succeeds.
    pub fn bin(self) -> (result: Result<Vec<u8>, FormError>)
        ensures
            exists|record: User|
                #[trigger] tokio_mutex_gave(self.held(), record) && is_bin_of(record@, result),
    {
        let record = tokio_mutex_held(self.0);
        let result = bin_form(&record);
        assert(tokio_mutex_gave(self.held(), record) && is_bin_of(record@, result));
        result
    }

    /// Turns the record that the mutex gives when it is taken apart into its structured-text value.
    /// This always succeeds.
    pub fn toml(self) -> (result: Result<toml::Value, FormError>)
        ensures
            exists|record: User|
                #[trigger] tokio_mutex_gave(self.held(), record) && is_toml_of(record@, result),
    {
        let record = tokio_mutex_held(self.0);
        let result = toml_form(&record);
        assert(tokio_mutex_gave(self.held(), record) && is_toml_of(record@, result));
        result
    }

    /// Turns the record that the mutex gives when it is taken apart into its JSON value.
    /// This always succeeds.
    pub fn json(self) -> (result: Result<serde_json::Value, FormError>)
        ensures
            exists|record: User|
                #[trigger] tokio_mutex_gave(self.held(), record) && is_json_of(record@, result),
    {
        let record = tokio_mutex_held(self.0);
        let result = json_form(&record);
        assert(tokio_mutex_gave(self.held(), record) && is_json_of(record@, result));
        result
    }
}

/// The wrapper around the record behind a blocking mutex.
pub struct ParseMutex(pub(crate) std::sync::Mutex<User>);

impl ParseMutex {
    /// The mutex as it is held.
    pub closed spec fn held(self) -> std::sync::Mutex<User> {
        self.0
    }

    /// Wraps `held`.
    pub(crate) fn wrap(held: std::sync::Mutex<User>) -> (wrapper: ParseMutex)
        ensures
            wrapper.held() == held,
    {
        ParseMutex(held)
    }

    /// Hands out the held mutex and uses the wrapper up.
    pub fn get(self) -> (held: std::sync::Mutex<User>)
        ensures
            held == self.held(),
    {
        self.0
    }

    /// Moves the held mutex behind a shared-ownership pointer.
    pub fn arc(self) -> (shared: std::sync::Arc<std::sync::Mutex<User>>)
        ensures
            *shared == self.held(),
    {
        std::sync::Arc::new(self.0)
    }

    /// Moves the held mutex behind a cooperatively scheduled mutex.
    pub fn tokio_mutex(self) -> (mutex: tokio::sync::Mutex<std::sync::Mutex<User>>)
        ensures
            tokio_mutex_made_of(mutex, self.held()),
    {
        tokio_mutex_of(self.0)
    }

    /// Moves the held mutex into a box.
    pub fn boxed(self) -> (boxed: Box<std::sync::Mutex<User>>)
        ensures
            *boxed == self.held(),
    {
        Box::new(self.0)
    }

    /// Moves the held mutex into a cell with run-time borrow checks.
    pub fn ref_cell(self) -> (cell: std::cell::RefCell<std::sync::Mutex<User>>)
        ensures
            ref_cell_made_of(cell, self.held()),
    {
        ref_cell_of(self.0)
    }

    /// Moves the held mutex into a list of one item.
    pub fn vec(self) -> (list: Vec<std::sync::Mutex<User>>)
        ensures
            list@ == seq![self.held()],
    {
        vec![self.0]
    }

    /// Moves the held mutex into a cell that checks nothing: whoever mutates
    /// through it must hold exclusive access by other means.
    pub fn unsafe_cell(self) -> (cell: std::cell::UnsafeCell<std::sync::Mutex<User>>)
        ensures
            unsafe_cell_made_of(cell, self.held()),
    {
        unsafe_cell_of(self.0)
    }

    /// Moves the held mutex into a cell that is initialised with it.
    pub fn once_cell(self) -> (cell: std::cell::OnceCell<std::sync::Mutex<User>>)
        ensures
            once_cell_made_of(cell, self.held()),
    {
        once_cell_of(self.0)
    }

    /// Puts the fields of the record that the mutex gives when it is taken
    /// apart into a map, each under its name.
    pub fn hashmap(self) -> (fields: StringHashMap<FieldValue>)
        ensures
            exists|record: User| mutex_gave(self.held(), record) && fields@ == record_map(record),
    {
        let record = mutex_held(self.0);
        let fields = map_form(&record);
        assert(mutex_gave(self.held(), record) && fields@ == record_map(record));
        fields
    }

    /// Writes the record that the mutex gives when it is taken apart in its binary form.
    /// This always succeeds.
    pub fn bin(self) -> (result: Result<Vec<u8>, FormError>)
        ensures
            exists|record: User|
                #[trigger] mutex_gave(self.held(), record) && is_bin_of(record@, result),
    {
        let record = mutex_held(self.0);
        let result = bin_form(&record);
        assert(mutex_gave(self.held(), record) && is_bin_of(record@, result));
        result
    }

    /// Turns the record that the mutex gives when it is taken apart into its structured-text value.
    /// This always succeeds.
    pub fn toml(self) -> (result: Result<toml::Value, FormError>)
        ensures
            exists|record: User|
                #[trigger] mutex_gave(self.held(), record) && is_toml_of(record@, result),
    {
        let record = mutex_held(self.0);
        let result = toml_form(&record);
        assert(mutex_gave(self.held(), record) && is_toml_of(record@, result));
        result
    }

    /// Turns the record that the mutex gives when it is taken apart into its JSON value.
    /// This always succeeds.
    pub fn json(self) -> (result: Result<serde_json::Value, FormError>)
        ensures
            exists|record: User|
                #[trigger] mutex_gave(self.held(), record) && is_json_of(record@, result),
    {
        let record = mutex_held(self.0);
        let result = json_form(&record);
        assert(mutex_gave(self.held(), record) && is_json_of(record@, result));
        result
    }
}

/// The wrapper around the boxed record.
pub struct ParseBox(pub(crate) Box<User>);

impl ParseBox {
    /// The box as it is held.
    pub closed spec fn held(self) -> Box<User> {
        self.0
    }

    /// Wraps `held`.
    pub(crate) fn wrap(held: Box<User>) -> (wrapper: ParseBox)
        ensures
            wrapper.held() == held,
    {
        ParseBox(held)
    }

    /// Hands out the held box and uses the wrapper up.
    pub fn get(self) -> (held: Box<User>)
        ensures
            held == self.held(),
    {
        self.0
    }

    /// Moves the held box behind a shared-ownership pointer.
    pub fn arc(self) -> (shared: std::sync::Arc<Box<User>>)
        ensures
            *shared == self.held(),
    {
        std::sync::Arc::new(self.0)
    }

    /// Moves the held box behind a cooperatively scheduled mutex.
    pub fn tokio_mutex(self) -> (mutex: tokio::sync::Mutex<Box<User>>)
        ensures
            tokio_mutex_made_of(mutex, self.held()),
    {
        tokio_mutex_of(self.0)
    }

    /// Moves the held box behind a blocking mutex.
    pub fn mutex(self) -> (mutex: std::sync::Mutex<Box<User>>)
        ensures
            mutex_made_of(mutex, self.held()),
    {
        mutex_of(self.0)
    }

    /// Moves the held box into a cell with run-time borrow checks.
    pub fn ref_cell(self) -> (cell: std::cell::RefCell<Box<User>>)
        ensures
            ref_cell_made_of(cell, self.held()),
    {
        ref_cell_of(self.0)
    }

    /// Moves the held box into a list of one item.
    pub fn vec(self) -> (list: Vec<Box<User>>)
        ensures
            list@ == seq![self.held()],
    {
        vec![self.0]
    }

    /// Moves the held box into a cell that checks nothing: whoever mutates
    /// through it must hold exclusive access by other means.
    pub fn unsafe_cell(self) -> (cell: std::cell::UnsafeCell<Box<User>>)
        ensures
            unsafe_cell_made_of(cell, self.held()),
    {
        unsafe_cell_of(self.0)
    }

    /// Moves the held box into a cell that is initialised with it.
    pub fn once_cell(self) -> (cell: std::cell::OnceCell<Box<User>>)
        ensures
            once_cell_made_of(cell, self.held()),
    {
        once_cell_of(self.0)
    }

    /// Puts the fields of the record in the box into a map, each under its name.
    pub fn hashmap(self) -> (fields: StringHashMap<FieldValue>)
        ensures
            fields@ == record_map(*self.held()),
    {
        map_form(&*self.0)
    }

    /// Writes the record in the box in its binary form.
    /// This always succeeds.
    pub fn bin(self) -> (result: Result<Vec<u8>, FormError>)
        ensures
            is_bin_of((*self.held())@, result),
    {
        bin_form(&*self.0)
    }

    /// Turns the record in the box into its structured-text value.
    /// This always succeeds.
    pub fn toml(self) -> (result: Result<toml::Value, FormError>)
        ensures
            is_toml_of((*self.held())@, result),
    {
        toml_form(&*self.0)
    }

    /// Turns the record in the box into its JSON value.
    /// This always succeeds.
    pub fn json(self) -> (result: Result<serde_json::Value, FormError>)
        ensures
            is_json_of((*self.held())@, result),
    {
        json_form(&*self.0)
    }
}

/// The wrapper around the record in a cell with run-time borrow checks.
pub struct ParseRefCell(pub(crate) std::cell::RefCell<User>);

impl ParseRefCell {
    /// The cell as it is held.
    pub closed spec fn held(self) -> std::cell::RefCell<User> {
        self.0
    }

    /// Wraps `held`.
    pub(crate) fn wrap(held: std::cell::RefCell<User>) -> (wrapper: ParseRefCell)
        ensures
            wrapper.held() == held,
    {
        ParseRefCell(held)
    }

    /// Hands out the held cell and uses the wrapper up.
    pub fn get(self) -> (held: std::cell::RefCell<User>)
        ensures
            held == self.held(),
    {
        self.0
    }

    /// Moves the held cell behind a shared-ownership pointer.
    pub fn arc(self) -> (shared: std::sync::Arc<std::cell::RefCell<User>>)
        ensures
            *shared == self.held(),
    {
        std::sync::Arc::new(self.0)
    }

    /// Moves the held cell behind a cooperatively scheduled mutex.
    pub fn tokio_mutex(self) -> (mutex: tokio::sync::Mutex<std::cell::RefCell<User>>)
        ensures
            tokio_mutex_made_of(mutex, self.held()),
    {
        tokio_mutex_of(self.0)
    }

    /// Moves the held cell behind a blocking mutex.
    pub fn mutex(self) -> (mutex: std::sync::Mutex<std::cell::RefCell<User>>)
        ensures
            mutex_made_of(mutex, self.held()),
    {
        mutex_of(self.0)
    }

    /// Moves the held cell into a box.
    pub fn boxed(self) -> (boxed: Box<std::cell::RefCell<User>>)
        ensures
            *boxed == self.held(),
    {
        Box::new(self.0)
    }

    /// Moves the held cell into a list of one item.
    pub fn vec(self) -> (list: Vec<std::cell::RefCell<User>>)
        ensures
            list@ == seq![self.held()],
    {
        vec![self.0]
    }

    /// Moves the held cell into a cell that checks nothing: whoever mutates
    /// through it must hold exclusive access by other means.
    pub fn unsafe_cell(self) -> (cell: std::cell::UnsafeCell<std::cell::RefCell<User>>)
        ensures
            unsafe_cell_made_of(cell, self.held()),
    {
        unsafe_cell_of(self.0)
    }

    /// Moves the held cell into a cell that is initialised with it.
    pub fn once_cell(self) -> (cell: std::cell::OnceCell<std::cell::RefCell<User>>)
        ensures
            once_cell_made_of(cell, self.held()),
    {
        once_cell_of(self.0)
    }

    /// Puts the fields of the record that the cell gives when it is taken
    /// apart into a map, each under its name.
    pub fn hashmap(self) -> (fields: StringHashMap<FieldValue>)
        ensures
            exists|record: User|
                ref_cell_gave(self.held(), record) && fields@ == record_map(record),
    {
        let record = ref_cell_held(self.0);
        let fields = map_form(&record);
        assert(ref_cell_gave(self.held(), record) && fields@ == record_map(record));
        fields
    }

    /// Writes the record that the cell gives when it is taken apart in its binary form.
    /// This always succeeds.
    pub fn bin(self) -> (result: Result<Vec<u8>, FormError>)
        ensures
            exists|record: User|
                #[trigger] ref_cell_gave(self.held(), record) && is_bin_of(record@, result),
    {
        let record = ref_cell_held(self.0);
        let result = bin_form(&record);
        assert(ref_cell_gave(self.held(), record) && is_bin_of(record@, result));
        result
    }

    /// Turns the record that the cell gives when it is taken apart into its structured-text value.
    /// This always succeeds.
    pub fn toml(self) -> (result: Result<toml::Value, FormError>)
        ensures
            exists|record: User|
                #[trigger] ref_cell_gave(self.held(), record) && is_toml_of(record@, result),
    {
        let record = ref_cell_held(self.0);
        let result = toml_form(&record);
        assert(ref_cell_gave(self.held(), record) && is_toml_of(record@, result));
        result
    }

    /// Turns the record that the cell gives when it is taken apart into its JSON value.
    /// This always succeeds.
    pub fn json(self) -> (result: Result<serde_json::Value, FormError>)
        ensures
            exists|record: User|
                #[trigger] ref_cell_gave(self.held(), record) && is_json_of(record@, result),
    {
        let record = ref_cell_held(self.0);
        let result = json_form(&record);
        assert(ref_cell_gave(self.held(), record) && is_json_of(record@, result));
        result
    }
}

/// The wrapper around a list that holds the record.
pub struct ParseVec(pub(crate) Vec<User>);

impl ParseVec {
    /// The list as it is held.
    pub closed spec fn held(self) -> Vec<User> {
        self.0
    }

    /// The list holds one record.
    #[verifier::type_invariant]
    pub closed spec fn inv(self) -> bool {
        self.0@.len() == 1
    }

    /// Wraps `held`, a list of one record.
    pub(crate) fn wrap(held: Vec<User>) -> (wrapper: ParseVec)
        requires
            held@.len() == 1,
        ensures
            wrapper.held() == held,
    {
        ParseVec(held)
    }

    /// Hands out the held list, which holds one record, and uses the wrapper
    /// up.
    pub fn get(self) -> (held: Vec<User>)
        ensures
            held == self.held(),
            held@.len() == 1,
    {
        proof {
            use_type_invariant(&self);
        }
        self.0
    }

    /// Moves the held list behind a shared-ownership pointer.
    pub fn arc(self) -> (shared: std::sync::Arc<Vec<User>>)
        ensures
            *shared == self.held(),
    {
        std::sync::Arc::new(self.0)
    }

    /// Moves the held list behind a cooperatively scheduled mutex.
    pub fn tokio_mutex(self) -> (mutex: tokio::sync::Mutex<Vec<User>>)
        ensures
            tokio_mutex_made_of(mutex, self.held()),
    {
        tokio_mutex_of(self.0)
    }

    /// Moves the held list behind a blocking mutex.
    pub fn mutex(self) -> (mutex: std::sync::Mutex<Vec<User>>)
        ensures
            mutex_made_of(mutex, self.held()),
    {
        mutex_of(self.0)
    }

    /// Moves the held list into a box.
    pub fn boxed(self) -> (boxed: Box<Vec<User>>)
        ensures
            *boxed == self.held(),
    {
        Box::new(self.0)
    }

    /// Moves the held list into a cell with run-time borrow checks.
    pub fn ref_cell(self) -> (cell: std::cell::RefCell<Vec<User>>)
        ensures
            ref_cell_made_of(cell, self.held()),
    {
        ref_cell_of(self.0)
    }

    /// Moves the held list into a cell that checks nothing: whoever mutates
    /// through it must hold exclusive access by other means.
    pub fn unsafe_cell(self) -> (cell: std::cell::UnsafeCell<Vec<User>>)
        ensures
            unsafe_cell_made_of(cell, self.held()),
    {
        unsafe_cell_of(self.0)
    }

    /// Moves the held list into a cell that is initialised with it.
    pub fn once_cell(self) -> (cell: std::cell::OnceCell<Vec<User>>)
        ensures
            once_cell_made_of(cell, self.held()),
    {
        once_cell_of(self.0)
    }

    /// Puts the fields of the record in the list into a map, each under its name.
    pub fn hashmap(self) -> (fields: StringHashMap<FieldValue>)
        ensures
            fields@ == record_map(self.held()@[0]),
    {
        proof {
            use_type_invariant(&self);
        }
        map_form(&self.0[0])
    }

    /// Writes the record in the list in its binary form.
    /// This always succeeds.
    pub fn bin(self) -> (result: Result<Vec<u8>, FormError>)
        ensures
            is_bin_of((self.held()@[0])@, result),
    {
        proof {
            use_type_invariant(&self);
        }
        bin_form(&self.0[0])
    }

    /// Turns the record in the list into its structured-text value.
    /// This always succeeds.
    pub fn toml(self) -> (result: Result<toml::Value, FormError>)
        ensures
            is_toml_of((self.held()@[0])@, result),
    {
        proof {
            use_type_invariant(&self);
        }
        toml_form(&self.0[0])
    }

    /// Turns the record in the list into its JSON value.
    /// This always succeeds.
    pub fn json(self) -> (result: Result<serde_json::Value, FormError>)
        ensures
            is_json_of((self.held()@[0])@, result),
    {
        proof {
            use_type_invariant(&self);
        }
        json_form(&self.0[0])
    }
}

/// The wrapper around the record in a cell that checks nothing. The cell hands
/// out unsynchronised mutable access: whoever mutates through it must hold
/// exclusive access by other means. Nothing here enforces that.
pub struct ParseUnsafeCell(pub(crate) std::cell::UnsafeCell<User>);

impl ParseUnsafeCell {
    /// The cell as it is held.
    pub closed spec fn held(self) -> std::cell::UnsafeCell<User> {
        self.0
    }

    /// Wraps `held`.
    pub(crate) fn wrap(held: std::cell::UnsafeCell<User>) -> (wrapper: ParseUnsafeCell)
        ensures
            wrapper.held() == held,
    {
        ParseUnsafeCell(held)
    }

    /// Hands out the held cell and uses the wrapper up.
    pub fn get(self) -> (held: std::cell::UnsafeCell<User>)
        ensures
            held == self.held(),
    {
        self.0
    }

    /// Moves the held cell behind a shared-ownership pointer.
    pub fn arc(self) -> (shared: std::sync::Arc<std::cell::UnsafeCell<User>>)
        ensures
            *shared == self.held(),
    {
        std::sync::Arc::new(self.0)
    }

    /// Moves the held cell behind a cooperatively scheduled mutex.
    pub fn tokio_mutex(self) -> (mutex: tokio::sync::Mutex<std::cell::UnsafeCell<User>>)
        ensures
            tokio_mutex_made_of(mutex, self.held()),
    {
        tokio_mutex_of(self.0)
    }

    /// Moves the held cell behind a blocking mutex.
    pub fn mutex(self) -> (mutex: std::sync::Mutex<std::cell::UnsafeCell<User>>)
        ensures
            mutex_made_of(mutex, self.held()),
    {
        mutex_of(self.0)
    }

    /// Moves the held cell into a box.
    pub fn boxed(self) -> (boxed: Box<std::cell::UnsafeCell<User>>)
        ensures
            *boxed == self.held(),
    {
        Box::new(self.0)
    }

    /// Moves the held cell into a cell with run-time borrow checks.
    pub fn ref_cell(self) -> (cell: std::cell::RefCell<std::cell::UnsafeCell<User>>)
        ensures
            ref_cell_made_of(cell, self.held()),
    {
        ref_cell_of(self.0)
    }

    /// Moves the held cell into a list of one item.
    pub fn vec(self) -> (list: Vec<std::cell::UnsafeCell<User>>)
        ensures
            list@ == seq![self.held()],
    {
        vec![self.0]
    }

    /// Moves the held cell into a cell that is initialised with it.
    pub fn once_cell(self) -> (cell: std::cell::OnceCell<std::cell::UnsafeCell<User>>)
        ensures
            once_cell_made_of(cell, self.held()),
    {
        once_cell_of(self.0)
    }

    /// Puts the fields of the record that the cell gives when it is taken
    /// apart into a map, each under its name.
    pub fn hashmap(self) -> (fields: StringHashMap<FieldValue>)
        ensures
            exists|record: User|
                unsafe_cell_gave(self.held(), record) && fields@ == record_map(record),
    {
        let record = unsafe_cell_held(self.0);
        let fields = map_form(&record);
        assert(unsafe_cell_gave(self.held(), record) && fields@ == record_map(record));
        fields
    }

    /// Writes the record that the cell gives when it is taken apart in its binary form.
    /// This always succeeds.
    pub fn bin(self) -> (result: Result<Vec<u8>, FormError>)
        ensures
            exists|record: User|
                #[trigger] unsafe_cell_gave(self.held(), record) && is_bin_of(record@, result),
    {
        let record = unsafe_cell_held(self.0);
        let result = bin_form(&record);
        assert(unsafe_cell_gave(self.held(), record) && is_bin_of(record@, result));
        result
    }

    /// Turns the record that the cell gives when it is taken apart into its structured-text value.
    /// This always succeeds.
    pub fn toml(self) -> (result: Result<toml::Value, FormError>)
        ensures
            exists|record: User|
                #[trigger] unsafe_cell_gave(self.held(), record) && is_toml_of(record@, result),
    {
        let record = unsafe_cell_held(self.0);
        let result = toml_form(&record);
        assert(unsafe_cell_gave(self.held(), record) && is_toml_of(record@, result));
        result
    }

    /// Turns the record that the cell gives when it is taken apart into its JSON value.
    /// This always succeeds.
    pub fn json(self) -> (result: Result<serde_json::Value, FormError>)
        ensures
            exists|record: User|
                #[trigger] unsafe_cell_gave(self.held(), record) && is_json_of(record@, result),
    {
        let record = unsafe_cell_held(self.0);
        let result = json_form(&record);
        assert(unsafe_cell_gave(self.held(), record) && is_json_of(record@, result));
        result
    }
}

/// The wrapper around a cell that was initialised with the record.
pub struct ParseOnceCell(pub(crate) std::cell::OnceCell<User>);

impl ParseOnceCell {
    /// The cell as it is held.
    pub closed spec fn held(self) -> std::cell::OnceCell<User> {
        self.0
    }

    /// The cell was made of a record, so it is initialised.
    #[verifier::type_invariant]
    pub closed spec fn inv(self) -> bool {
        exists|record: User| once_cell_made_of(self.0, record)
    }

    /// Wraps `held`, a cell that was made of `record`.
    pub(crate) fn wrap(held: std::cell::OnceCell<User>, Ghost(record): Ghost<User>) -> (wrapper:
        ParseOnceCell)
        requires
            once_cell_made_of(held, record),
        ensures
            wrapper.held() == held,
    {
        assert(ParseOnceCell(held).inv()) by {
            assert(once_cell_made_of(ParseOnceCell(held).0, record));
        }
        ParseOnceCell(held)
    }

    /// The record in the cell, by reference. The cell was made of a record, so
    /// there is one: the record that the cell was made of.
    pub fn get(&self) -> (record: Option<&User>)
        ensures
            record matches Some(inner) && once_cell_made_of(self.held(), *inner),
            forall|value: User| once_cell_made_of(self.held(), value) ==> record == Some(&value),
            once_cell_gives(self.held(), record),
    {
        proof {
            use_type_invariant(self);
        }
        once_cell_read(&self.0)
    }

    /// Moves the held cell behind a shared-ownership pointer.
    pub fn arc(self) -> (shared: std::sync::Arc<std::cell::OnceCell<User>>)
        ensures
            *shared == self.held(),
    {
        std::sync::Arc::new(self.0)
    }

    /// Moves the held cell behind a cooperatively scheduled mutex.
    pub fn tokio_mutex(self) -> (mutex: tokio::sync::Mutex<std::cell::OnceCell<User>>)
        ensures
            tokio_mutex_made_of(mutex, self.held()),
    {
        tokio_mutex_of(self.0)
    }

    /// Moves the held cell behind a blocking mutex.
    pub fn mutex(self) -> (mutex: std::sync::Mutex<std::cell::OnceCell<User>>)
        ensures
            mutex_made_of(mutex, self.held()),
    {
        mutex_of(self.0)
    }

    /// Moves the held cell into a box.
    pub fn boxed(self) -> (boxed: Box<std::cell::OnceCell<User>>)
        ensures
            *boxed == self.held(),
    {
        Box::new(self.0)
    }

    /// Moves the held cell into a cell with run-time borrow checks.
    pub fn ref_cell(self) -> (cell: std::cell::RefCell<std::cell::OnceCell<User>>)
        ensures
            ref_cell_made_of(cell, self.held()),
    {
        ref_cell_of(self.0)
    }

    /// Moves the held cell into a list of one item.
    pub fn vec(self) -> (list: Vec<std::cell::OnceCell<User>>)
        ensures
            list@ == seq![self.held()],
    {
        vec![self.0]
    }

    /// Moves the held cell into a cell that checks nothing: whoever mutates
    /// through it must hold exclusive access by other means.
    pub fn unsafe_cell(self) -> (cell: std::cell::UnsafeCell<std::cell::OnceCell<User>>)
        ensures
            unsafe_cell_made_of(cell, self.held()),
    {
        unsafe_cell_of(self.0)
    }

    /// Puts the fields of the record that the cell was made of into a map, each under its name.
    pub fn hashmap(self) -> (fields: StringHashMap<FieldValue>)
        ensures
            forall|record: User|
                once_cell_made_of(self.held(), record) ==> fields@ == record_map(record),
    {
        proof {
            use_type_invariant(&self);
        }
        match once_cell_read(&self.0) {
            Some(record) => map_form(record),
            None => vstd::pervasive::unreached(),
        }
    }

    /// Writes the record that the cell was made of in its binary form.
    /// This always succeeds.
    pub fn bin(self) -> (result: Result<Vec<u8>, FormError>)
        ensures
            forall|record: User|
                once_cell_made_of(self.held(), record) ==> is_bin_of(record@, result),
    {
        proof {
            use_type_invariant(&self);
        }
        match once_cell_read(&self.0) {
            Some(record) => bin_form(record),
            None => vstd::pervasive::unreached(),
        }
    }

    /// Turns the record that the cell was made of into its structured-text value.
    /// This always succeeds.
    pub fn toml(self) -> (result: Result<toml::Value, FormError>)
        ensures
            forall|record: User|
                once_cell_made_of(self.held(), record) ==> is_toml_of(record@, result),
    {
        proof {
            use_type_invariant(&self);
        }
        match once_cell_read(&self.0) {
            Some(record) => toml_form(record),
            None => vstd::pervasive::unreached(),
        }
    }

    /// Turns the record that the cell was made of into its JSON value.
    /// This always succeeds.
    pub fn json(self) -> (result: Result<serde_json::Value, FormError>)
        ensures
            forall|record: User|
                once_cell_made_of(self.held(), record) ==> is_json_of(record@, result),
    {
        proof {
            use_type_invariant(&self);
        }
        match once_cell_read(&self.0) {
            Some(record) => json_form(record),
            None => vstd::pervasive::unreached(),
        }
    }
}

} // verus!

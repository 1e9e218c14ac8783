//! The interior-mutable containers of the standard library and of `tokio`.
//!
//! What such a container holds can change behind a shared reference, so no
//! contract here speaks of what it holds now. What a contract can say, and
//! does, is which value the container was made of: that it is the container
//! which the constructor returned for that value.

use vstd::prelude::*;

verus! {

/// `std::sync::Mutex`, as a value that is handed on.
#[verifier::external_type_specification]
#[verifier::external_body]
#[verifier::reject_recursive_types(T)]
pub struct ExMutex<T: ?Sized>(std::sync::Mutex<T>);

/// `tokio::sync::Mutex`, as a value that is handed on.
#[verifier::external_type_specification]
#[verifier::external_body]
#[verifier::reject_recursive_types(T)]
pub struct ExTokioMutex<T: ?Sized>(tokio::sync::Mutex<T>);

/// `std::cell::RefCell`, as a value that is handed on.
#[verifier::external_type_specification]
#[verifier::external_body]
#[verifier::reject_recursive_types(T)]
pub struct ExRefCell<T: ?Sized>(std::cell::RefCell<T>);

/// `std::cell::UnsafeCell`, as a value that is handed on.
#[verifier::external_type_specification]
#[verifier::external_body]
#[verifier::reject_recursive_types(T)]
pub struct ExUnsafeCell<T: ?Sized>(std::cell::UnsafeCell<T>);

/// `std::cell::OnceCell`, as a value that is handed on.
#[verifier::external_type_specification]
#[verifier::external_body]
#[verifier::reject_recursive_types(T)]
pub struct ExOnceCell<T>(std::cell::OnceCell<T>);

/// Calls `std::sync::Mutex::new`. Trusted; nothing is claimed of the result.
#[verifier::external_body]
fn new_mutex<T>(value: T) -> (mutex: std::sync::Mutex<T>) {
    std::sync::Mutex::new(value)
}

/// Calls `tokio::sync::Mutex::new`. Trusted; nothing is claimed of the
/// result.
#[verifier::external_body]
fn new_tokio_mutex<T>(value: T) -> (mutex: tokio::sync::Mutex<T>) {
    tokio::sync::Mutex::new(value)
}

/// Calls `std::cell::RefCell::new`. Trusted; nothing is claimed of the
/// result.
#[verifier::external_body]
fn new_ref_cell<T>(value: T) -> (cell: std::cell::RefCell<T>) {
    std::cell::RefCell::new(value)
}

/// Calls `std::cell::UnsafeCell::new`. Trusted; nothing is claimed of the
/// result.
#[verifier::external_body]
fn new_unsafe_cell<T>(value: T) -> (cell: std::cell::UnsafeCell<T>) {
    std::cell::UnsafeCell::new(value)
}

/// Calls `std::cell::OnceCell::from`, which makes a cell that is initialised
/// with `value`. Trusted; nothing is claimed of the result.
#[verifier::external_body]
fn new_once_cell<T>(value: T) -> (cell: std::cell::OnceCell<T>) {
    std::cell::OnceCell::from(value)
}

/// Calls `std::cell::OnceCell::get`. Trusted: a cell that
/// `std::cell::OnceCell::from` made of a value is initialised, and gives that
/// value.
#[verifier::external_body]
fn once_cell_get<T>(cell: &std::cell::OnceCell<T>) -> (found: Option<&T>)
    ensures
        forall|value: T| once_cell_made_of(*cell, value) ==> found == Some(&value),
{
    cell.get()
}

/// Whether `mutex` is the mutex that `std::sync::Mutex::new` returned for
/// `value`.
pub closed spec fn mutex_made_of<T>(mutex: std::sync::Mutex<T>, value: T) -> bool {
    call_ensures(new_mutex::<T>, (value,), mutex)
}

/// Whether `mutex` is the mutex that `tokio::sync::Mutex::new` returned for
/// `value`.
pub closed spec fn tokio_mutex_made_of<T>(mutex: tokio::sync::Mutex<T>, value: T) -> bool {
    call_ensures(new_tokio_mutex::<T>, (value,), mutex)
}

/// Whether `cell` is the cell that `std::cell::RefCell::new` returned for
/// `value`.
pub closed spec fn ref_cell_made_of<T>(cell: std::cell::RefCell<T>, value: T) -> bool {
    call_ensures(new_ref_cell::<T>, (value,), cell)
}

/// Whether `cell` is the cell that `std::cell::UnsafeCell::new` returned for
/// `value`.
pub closed spec fn unsafe_cell_made_of<T>(cell: std::cell::UnsafeCell<T>, value: T) -> bool {
    call_ensures(new_unsafe_cell::<T>, (value,), cell)
}

/// Whether `cell` is the cell that `std::cell::OnceCell::from` returned for
/// `value`: a cell that is initialised with it.
pub closed spec fn once_cell_made_of<T>(cell: std::cell::OnceCell<T>, value: T) -> bool {
    call_ensures(new_once_cell::<T>, (value,), cell)
}

/// Whether `found` is what `std::cell::OnceCell::get` returned for `cell`.
pub closed spec fn once_cell_gives<T>(cell: std::cell::OnceCell<T>, found: Option<&T>) -> bool {
    call_ensures(once_cell_get::<T>, (&cell,), found)
}

/// Puts `value` behind a blocking mutex.
pub(crate) fn mutex_of<T>(value: T) -> (mutex: std::sync::Mutex<T>)
    ensures
        mutex_made_of(mutex, value),
{
    new_mutex(value)
}

/// Puts `value` behind a cooperatively scheduled mutex.
pub(crate) fn tokio_mutex_of<T>(value: T) -> (mutex: tokio::sync::Mutex<T>)
    ensures
        tokio_mutex_made_of(mutex, value),
{
    new_tokio_mutex(value)
}

/// Puts `value` into a cell with run-time borrow checks.
pub(crate) fn ref_cell_of<T>(value: T) -> (cell: std::cell::RefCell<T>)
    ensures
        ref_cell_made_of(cell, value),
{
    new_ref_cell(value)
}

/// Puts `value` into a cell that checks nothing.
pub(crate) fn unsafe_cell_of<T>(value: T) -> (cell: std::cell::UnsafeCell<T>)
    ensures
        unsafe_cell_made_of(cell, value),
{
    new_unsafe_cell(value)
}

/// Puts `value` into a cell that is initialised with it.
pub(crate) fn once_cell_of<T>(value: T) -> (cell: std::cell::OnceCell<T>)
    ensures
        once_cell_made_of(cell, value),
{
    new_once_cell(value)
}

/// Reads what `cell` holds, by reference. A cell that was made of a value
/// gives that value.
pub(crate) fn once_cell_read<T>(cell: &std::cell::OnceCell<T>) -> (found: Option<&T>)
    ensures
        once_cell_gives(*cell, found),
        forall|value: T| once_cell_made_of(*cell, value) ==> found == Some(&value),
{
    once_cell_get(cell)
}

/// Calls `std::sync::Mutex::into_inner`, and takes the value out of the error
/// where the mutex is poisoned. Trusted; nothing is claimed of the result.
#[verifier::external_body]
fn mutex_into_inner<T>(mutex: std::sync::Mutex<T>) -> (value: T) {
    mutex.into_inner().unwrap_or_else(|poisoned| poisoned.into_inner())
}

/// Calls `tokio::sync::Mutex::into_inner`. Trusted; nothing is claimed of the
/// result.
#[verifier::external_body]
fn tokio_mutex_into_inner<T>(mutex: tokio::sync::Mutex<T>) -> (value: T) {
    mutex.into_inner()
}

/// Calls `std::cell::RefCell::into_inner`. Trusted; nothing is claimed of the
/// result.
#[verifier::external_body]
fn ref_cell_into_inner<T>(cell: std::cell::RefCell<T>) -> (value: T) {
    cell.into_inner()
}

/// Calls `std::cell::UnsafeCell::into_inner`. Trusted; nothing is claimed of
/// the result.
#[verifier::external_body]
fn unsafe_cell_into_inner<T>(cell: std::cell::UnsafeCell<T>) -> (value: T) {
    cell.into_inner()
}

/// Whether `value` is what `std::sync::Mutex::into_inner` gave for `mutex`:
/// what the mutex held when it was taken apart.
pub closed spec fn mutex_gave<T>(mutex: std::sync::Mutex<T>, value: T) -> bool {
    call_ensures(mutex_into_inner::<T>, (mutex,), value)
}

/// Whether `value` is what `tokio::sync::Mutex::into_inner` gave for `mutex`.
pub closed spec fn tokio_mutex_gave<T>(mutex: tokio::sync::Mutex<T>, value: T) -> bool {
    call_ensures(tokio_mutex_into_inner::<T>, (mutex,), value)
}

/// Whether `value` is what `std::cell::RefCell::into_inner` gave for `cell`.
pub closed spec fn ref_cell_gave<T>(cell: std::cell::RefCell<T>, value: T) -> bool {
    call_ensures(ref_cell_into_inner::<T>, (cell,), value)
}

/// Whether `value` is what `std::cell::UnsafeCell::into_inner` gave for
/// `cell`.
pub closed spec fn unsafe_cell_gave<T>(cell: std::cell::UnsafeCell<T>, value: T) -> bool {
    call_ensures(unsafe_cell_into_inner::<T>, (cell,), value)
}

/// Takes `mutex` apart and hands out what it holds.
pub(crate) fn mutex_held<T>(mutex: std::sync::Mutex<T>) -> (value: T)
    ensures
        mutex_gave(mutex, value),
{
    mutex_into_inner(mutex)
}

/// Takes `mutex` apart and hands out what it holds.
pub(crate) fn tokio_mutex_held<T>(mutex: tokio::sync::Mutex<T>) -> (value: T)
    ensures
        tokio_mutex_gave(mutex, value),
{
    tokio_mutex_into_inner(mutex)
}

/// Takes `cell` apart and hands out what it holds.
pub(crate) fn ref_cell_held<T>(cell: std::cell::RefCell<T>) -> (value: T)
    ensures
        ref_cell_gave(cell, value),
{
    ref_cell_into_inner(cell)
}

/// Takes `cell` apart and hands out what it holds.
pub(crate) fn unsafe_cell_held<T>(cell: std::cell::UnsafeCell<T>) -> (value: T)
    ensures
        unsafe_cell_gave(cell, value),
{
    unsafe_cell_into_inner(cell)
}

} // verus!

//! Wrapper types around a plain record: ownership and concurrency containers,
//! serialized forms, and access to single fields.
//!
//! The crate has two halves.
//!
//! The first describes an expansion. Given the structural description of a
//! record type ([`record`]) and the set of active capabilities
//! ([`capability`]), it lists the wrapper types and methods that belong to the
//! record ([`catalog`]): the wrapper of each container kind ([`wrappers`]) with
//! its conversions ([`conversions`]), the field selector with the wrappers of
//! each field ([`by_field`]), and the top-level wrapper with the entry point
//! ([`parse`]). What holds of every such list is proved in [`laws`].
//!
//! The second provides those wrappers for the sample record [`user::User`]:
//! the top-level wrapper ([`entry`]), the containers around the record
//! ([`containers`], over [`cells`]), its binary form with the round trip
//! through hexadecimal text ([`binary`], [`hexing`]), its JSON and
//! structured-text values ([`json_value`], [`toml_value`], over [`tree`]), the
//! map of its fields ([`field_map`]), the forms that every wrapper converts
//! into ([`forms`]), and the selector of single fields with credential hashing
//! ([`fields`], [`credential`]).

pub mod binary;
pub mod by_field;
pub mod capability;
pub mod catalog;
pub mod cells;
pub mod containers;
pub mod conversions;
pub mod credential;
pub mod entry;
pub mod field_map;
pub mod fields;
pub mod forms;
pub mod hexing;
pub mod json_value;
pub mod laws;
pub mod parse;
pub mod record;
pub mod toml_value;
pub mod tree;
pub mod user;
pub mod wrappers;

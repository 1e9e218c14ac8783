//! The binary form of the record.

use vstd::prelude::*;
use crate::field_map::FieldValue;
use vstd::hash_map::StringHashMap;
use crate::forms::record_from_bytes;
use crate::forms::read_from_bytes;
use crate::forms::toml_of_read;
use crate::forms::toml_after;
use crate::forms::map_of_read;
use crate::forms::map_after;
use crate::forms::json_of_read;
use crate::forms::json_after;
use crate::forms::FormError;
use crate::cells::mutex_made_of;
use crate::cells::mutex_of;
use crate::cells::once_cell_made_of;
use crate::cells::once_cell_of;
use crate::cells::ref_cell_made_of;
use crate::cells::ref_cell_of;
use crate::cells::tokio_mutex_made_of;
use crate::cells::tokio_mutex_of;
use crate::cells::unsafe_cell_made_of;
use crate::cells::unsafe_cell_of;
use crate::hexing::hex_bytes;
use crate::hexing::hex_decode;
use crate::hexing::hex_encode;
use crate::hexing::hex_text;
use crate::hexing::is_hex_text;
use crate::user::User;
use crate::user::UserView;

verus! {

/// `bincode::error::EncodeError`: the codec's diagnostic. Carried as it is.
#[verifier::external_type_specification]
#[verifier::external_body]
pub struct ExEncodeError(bincode::error::EncodeError);

/// `bincode::error::DecodeError`: the codec's diagnostic. Carried as it is.
#[verifier::external_type_specification]
#[verifier::external_body]
pub struct ExDecodeError(bincode::error::DecodeError);

/// The limit under which bytes of moderate length are read: the most bytes
/// that the codec may count, and so the most it allocates for a length that
/// such bytes declare.
pub const SMALL_LIMIT: usize = 16_777_216;

/// The limit under which longer bytes are read: the most bytes that one
/// allocation can hold on every machine, which is that of a machine of 32
/// bits. The limit is part of a type, where it must be written as a number.
pub const MACHINE_LIMIT: usize = 0x7FFF_FFFF;

/// What the codec counts against its limit beyond the bytes of a record, at
/// most: it counts eight bytes for each of the five lengths, whatever its
/// size, and each takes one byte at least.
pub const LENGTH_ALLOWANCE: usize = 35;

/// The limit under which bytes of length `len` are read: the small one where
/// it covers them, else the machine's.
pub open spec fn limit_for(len: nat) -> usize {
    if len + LENGTH_ALLOWANCE <= SMALL_LIMIT {
        SMALL_LIMIT
    } else {
        MACHINE_LIMIT
    }
}

/// The bytes that `bincode` writes for a text string in its standard
/// configuration: the length of the text, then its bytes.
pub uninterp spec fn bincode_text_encoding(text: Seq<char>) -> Seq<u8>;

/// The text that `bincode` reads from the start of `bytes` in its standard
/// configuration, if it reads one.
pub uninterp spec fn bincode_text_decoding(bytes: Seq<u8>) -> Option<Seq<char>>;

/// The byte that the codec reads from the start of `bytes`: the first, if
/// there is one.
pub open spec fn byte_decoding(bytes: Seq<u8>) -> Option<u8> {
    if bytes.len() > 0 {
        Some(bytes[0])
    } else {
        None
    }
}

/// The bytes of `user`: its fields in declaration order, one after the other.
/// A text field is written as `bincode` writes a text, the age as one byte.
pub open spec fn record_encoding(user: UserView) -> Seq<u8> {
    bincode_text_encoding(user.id) + bincode_text_encoding(user.name) + bincode_text_encoding(
        user.password,
    ) + bincode_text_encoding(user.email) + seq![user.age] + bincode_text_encoding(user.gender)
}

/// The record that `bincode` reads from the start of `bytes` in its standard
/// configuration with the byte limit `limit`, if it reads one. A length that
/// the limit does not cover is refused before anything is allocated for it.
pub uninterp spec fn bincode_decoding(bytes: Seq<u8>, limit: usize) -> Option<UserView>;

/// Whether the machine's limit covers whatever record `bytes` were written
/// for.
pub open spec fn within_limit(bytes: Seq<u8>) -> bool {
    bytes.len() + LENGTH_ALLOWANCE <= MACHINE_LIMIT
}

/// The most bytes that the codec writes for a text of `len` characters: nine
/// for the length, and four for each character.
pub open spec fn text_bound(len: nat) -> nat {
    9 + 4 * len
}

/// The most bytes that the codec writes for `user`.
pub open spec fn encoding_bound(user: UserView) -> nat {
    text_bound(user.id.len()) + text_bound(user.name.len()) + text_bound(user.password.len())
        + text_bound(user.email.len()) + 1 + text_bound(user.gender.len())
}

/// Calls `bincode::encode_to_vec` on the fields of `user`, in declaration
/// order, with `bincode::config::standard`. Trusted: writing text and a byte
/// to a vector has no error path, so the call succeeds; the fields are written
/// one after the other, each as it is written alone, a text in nine bytes at
/// most for its length and four at most for each character; and the codec
/// reads the same fields back from the bytes under any limit that covers what
/// it counts for them, which is the bytes and at most seven more for each
/// length.
#[verifier::external_body]
pub(crate) fn bincode_encode(user: &User) -> (outcome: Result<
    Vec<u8>,
    bincode::error::EncodeError,
>)
    ensures
        match outcome {
            Ok(bytes) => bytes@ == record_encoding(user@) && bytes@.len() <= encoding_bound(
                user@,
            ) && forall|limit: usize|
                bytes@.len() + LENGTH_ALLOWANCE <= limit ==> #[trigger] bincode_decoding(
                    bytes@,
                    limit,
                ) == Some(user@),
            Err(_) => false,
        },
{
    bincode::encode_to_vec(
        (&user.id, &user.name, &user.password, &user.email, user.age, &user.gender),
        bincode::config::standard(),
    )
}

/// Calls `bincode::decode_from_slice` for the fields of a record, in
/// declaration order, with `bincode::config::standard` under the byte limit
/// `LIMIT`. Trusted: whether a record is read, and which, depends on the bytes
/// and the limit alone. A limit above what one allocation can hold would let
/// a declared length through to an allocation that panics; `requires` leaves
/// such limits out.
#[verifier::external_body]
pub(crate) fn bincode_decode<const LIMIT: usize>(bytes: &[u8]) -> (outcome: Result<
    User,
    bincode::error::DecodeError,
>)
    requires
        LIMIT <= MACHINE_LIMIT,
    ensures
        match outcome {
            Ok(user) => bincode_decoding(bytes@, LIMIT) == Some(user@),
            Err(_) => bincode_decoding(bytes@, LIMIT) is None,
        },
{
    bincode::decode_from_slice::<(String, String, String, String, u8, String), _>(
        bytes,
        bincode::config::standard().with_limit::<LIMIT>(),
    ).map(
        |((id, name, password, email, age, gender), _)| User {
            id,
            name,
            password,
            email,
            age,
            gender,
        },
    )
}

/// Calls `bincode::encode_to_vec` on a string slice, with
/// `bincode::config::standard`. Trusted: the call succeeds, the bytes depend
/// on the text alone and are nine at most for the length and four at most for
/// each character, and the codec reads the text back from them.
#[verifier::external_body]
pub(crate) fn bincode_encode_text(text: &str) -> (outcome: Result<
    Vec<u8>,
    bincode::error::EncodeError,
>)
    ensures
        match outcome {
            Ok(bytes) => bytes@ == bincode_text_encoding(text@) && bytes@.len() <= text_bound(
                text@.len(),
            ) && bincode_text_decoding(bytes@) == Some(text@),
            Err(_) => false,
        },
{
    bincode::encode_to_vec(text, bincode::config::standard())
}

/// Calls `bincode::encode_to_vec` on a `u8`, with `bincode::config::standard`.
/// Trusted: the call succeeds, and a byte is written as itself.
#[verifier::external_body]
pub(crate) fn bincode_encode_byte(byte: u8) -> (outcome: Result<
    Vec<u8>,
    bincode::error::EncodeError,
>)
    ensures
        match outcome {
            Ok(bytes) => bytes@ == seq![byte],
            Err(_) => false,
        },
{
    bincode::encode_to_vec(byte, bincode::config::standard())
}

/// Why an operation on the binary form failed.
#[derive(Debug)]
pub enum BinError {
    /// The codec could not write the record; its diagnostic is carried.
    Encode(bincode::error::EncodeError),
    /// The bytes do not hold a record; the codec's diagnostic is carried.
    Decode(bincode::error::DecodeError),
    /// The text is not hexadecimal; the diagnostic is carried.
    MalformedHex(hex::FromHexError),
}

/// What decoding `bytes` gives: the record that the codec reads under the
/// limit of [`limit_for`], or a decode error if it reads none.
pub open spec fn decodes_to(bytes: Seq<u8>, result: Result<User, BinError>) -> bool {
    match result {
        Ok(user) => bincode_decoding(bytes, limit_for(bytes.len())) == Some(user@),
        Err(error) => bincode_decoding(bytes, limit_for(bytes.len())) is None && error is Decode,
    }
}

/// What decoding hexadecimal `text` gives: a hex-format error if the text is
/// malformed, reported before any decoding; else what decoding the bytes
/// gives.
pub open spec fn hex_decodes_to(text: Seq<char>, result: Result<User, BinError>) -> bool {
    if is_hex_text(text) {
        decodes_to(hex_bytes(text), result)
    } else {
        result matches Err(error) && error is MalformedHex
    }
}

/// The wrapper around the record's binary form.
#[derive(Debug)]
pub struct ParseBin(pub(crate) Vec<u8>);

impl View for ParseBin {
    type V = Seq<u8>;

    open spec fn view(&self) -> Seq<u8> {
        self.held()@
    }
}

/// Reads a record from `bytes`.
pub fn decode(bytes: &[u8]) -> (result: Result<User, BinError>)
    ensures
        decodes_to(bytes@, result),
{
    let outcome = if bytes.len() <= SMALL_LIMIT - LENGTH_ALLOWANCE {
        bincode_decode::<SMALL_LIMIT>(bytes)
    } else {
        bincode_decode::<MACHINE_LIMIT>(bytes)
    };
    match outcome {
        Ok(user) => Ok(user),
        Err(error) => Err(BinError::Decode(error)),
    }
}

impl ParseBin {
    /// The bytes as they are held.
    pub closed spec fn held(self) -> Vec<u8> {
        self.0
    }

    /// Wraps what the codec returned for a record: its bytes, or an encode
    /// error that carries its diagnostic.
    pub fn from_encoding(outcome: Result<Vec<u8>, bincode::error::EncodeError>) -> (result: Result<
        ParseBin,
        BinError,
    >)
        ensures
            match (outcome, result) {
                (Ok(bytes), Ok(wrapper)) => wrapper.held() == bytes,
                (Err(cause), Err(BinError::Encode(carried))) => carried == cause,
                _ => false,
            },
    {
        match outcome {
            Ok(bytes) => Ok(ParseBin(bytes)),
            Err(error) => Err(BinError::Encode(error)),
        }
    }

    /// The held bytes.
    pub fn get(&self) -> (bytes: &[u8])
        ensures
            bytes@ == self@,
    {
        self.0.as_slice()
    }

    /// The held bytes as hexadecimal text. This always succeeds.
    pub fn hex(&self) -> (text: String)
        ensures
            text@ == hex_text(self@),
    {
        hex_encode(self.0.as_slice())
    }

    /// Reads a record from hexadecimal text. Malformed text is reported before
    /// any decoding is attempted. The held bytes play no part.
    pub fn from_hex(&self, hex_str: &str) -> (result: Result<User, BinError>)
        ensures
            hex_decodes_to(hex_str@, result),
    {
        match hex_decode(hex_str) {
            Ok(bytes) => decode(bytes.as_slice()),
            Err(error) => Err(BinError::MalformedHex(error)),
        }
    }

    /// Reads the record from the held bytes, and uses the wrapper up.
    pub fn from(self) -> (result: Result<User, BinError>)
        ensures
            decodes_to(self@, result),
    {
        decode(self.0.as_slice())
    }

    /// Reads a record from `bytes`. The held bytes play no part, and the
    /// wrapper stays as it is.
    pub fn from_bytes(&self, bytes: &[u8]) -> (result: Result<User, BinError>)
        ensures
            decodes_to(bytes@, result),
    {
        decode(bytes)
    }

    /// Moves the held bytes behind a shared-ownership pointer.
    pub fn arc(self) -> (shared: std::sync::Arc<Vec<u8>>)
        ensures
            *shared == self.held(),
    {
        std::sync::Arc::new(self.0)
    }

    /// Moves the held bytes behind a cooperatively scheduled mutex.
    pub fn tokio_mutex(self) -> (mutex: tokio::sync::Mutex<Vec<u8>>)
        ensures
            tokio_mutex_made_of(mutex, self.held()),
    {
        tokio_mutex_of(self.0)
    }

    /// Moves the held bytes behind a blocking mutex.
    pub fn mutex(self) -> (mutex: std::sync::Mutex<Vec<u8>>)
        ensures
            mutex_made_of(mutex, self.held()),
    {
        mutex_of(self.0)
    }

    /// Moves the held bytes into a box.
    pub fn boxed(self) -> (boxed: Box<Vec<u8>>)
        ensures
            *boxed == self.held(),
    {
        Box::new(self.0)
    }

    /// Moves the held bytes into a cell with run-time borrow checks.
    pub fn ref_cell(self) -> (cell: std::cell::RefCell<Vec<u8>>)
        ensures
            ref_cell_made_of(cell, self.held()),
    {
        ref_cell_of(self.0)
    }

    /// Moves the held bytes into a list of one item.
    pub fn vec(self) -> (list: Vec<Vec<u8>>)
        ensures
            list@ == seq![self.held()],
    {
        vec![self.0]
    }

    /// Moves the held bytes into a cell that checks nothing: whoever mutates
    /// through it must hold exclusive access by other means.
    pub fn unsafe_cell(self) -> (cell: std::cell::UnsafeCell<Vec<u8>>)
        ensures
            unsafe_cell_made_of(cell, self.held()),
    {
        unsafe_cell_of(self.0)
    }

    /// Moves the held bytes into a cell that is initialised with it.
    pub fn once_cell(self) -> (cell: std::cell::OnceCell<Vec<u8>>)
        ensures
            once_cell_made_of(cell, self.held()),
    {
        once_cell_of(self.0)
    }

    /// Reads the record from the held bytes and puts its fields into a map.
    /// Where the held bytes is no record, that is the error.
    pub fn hashmap(self) -> (result: Result<StringHashMap<FieldValue>, FormError>)
        ensures
            exists|read: Result<User, FormError>|
                read_from_bytes(self@, read) && map_of_read(read, result),
    {
        let read = record_from_bytes(self.0.as_slice());
        let ghost seen = read;
        let result = map_after(read);
        assert(read_from_bytes(self@, seen) && map_of_read(seen, result));
        result
    }

    /// Reads the record from the held bytes and turns it into its structured-text value.
    /// Where the held bytes is no record, that is the error.
    pub fn toml(self) -> (result: Result<toml::Value, FormError>)
        ensures
            exists|read: Result<User, FormError>|
                read_from_bytes(self@, read) && toml_of_read(read, result),
    {
        let read = record_from_bytes(self.0.as_slice());
        let ghost seen = read;
        let result = toml_after(read);
        assert(read_from_bytes(self@, seen) && toml_of_read(seen, result));
        result
    }

    /// Reads the record from the held bytes and turns it into its JSON value.
    /// Where the held bytes is no record, that is the error.
    pub fn json(self) -> (result: Result<serde_json::Value, FormError>)
        ensures
            exists|read: Result<User, FormError>|
                read_from_bytes(self@, read) && json_of_read(read, result),
    {
        let read = record_from_bytes(self.0.as_slice());
        let ghost seen = read;
        let result = json_after(read);
        assert(read_from_bytes(self@, seen) && json_of_read(seen, result));
        result
    }
}

/// Decoding the text of a wrapper's own bytes is decoding those bytes: the
/// round trip through hexadecimal text loses nothing.
pub proof fn law_hex_round_trip_decodes(bytes: Seq<u8>, result: Result<User, BinError>)
    ensures
        hex_decodes_to(hex_text(bytes), result) <==> decodes_to(bytes, result),
{
    crate::hexing::law_hex_round_trip(bytes);
}

/// The binary round trip: bytes that the codec wrote for `user`, and that the
/// machine's limit covers, give `user` again when they are decoded, and when
/// they are written as hexadecimal text and decoded from that text.
pub proof fn law_binary_round_trip(
    user: UserView,
    bytes: Seq<u8>,
    from_text: Result<User, BinError>,
    from_bytes: Result<User, BinError>,
)
    requires
        within_limit(bytes),
        forall|limit: usize|
            bytes.len() + LENGTH_ALLOWANCE <= limit ==> #[trigger] bincode_decoding(bytes, limit)
                == Some(user),
        hex_decodes_to(hex_text(bytes), from_text),
        decodes_to(bytes, from_bytes),
    ensures
        from_text matches Ok(read) && read@ == user,
        from_bytes matches Ok(read) && read@ == user,
{
    law_hex_round_trip_decodes(bytes, from_text);
    assert(bincode_decoding(bytes, limit_for(bytes.len())) == Some(user));
}

/// The machine's limit covers every record whose texts hold no more than
/// 2^28 characters together.
pub proof fn law_records_are_within_limit(user: UserView, bytes: Seq<u8>)
    requires
        bytes.len() <= encoding_bound(user),
        user.id.len() + user.name.len() + user.password.len() + user.email.len()
            + user.gender.len() <= 0x1000_0000,
    ensures
        within_limit(bytes),
{
}

} // verus!

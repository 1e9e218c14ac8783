//! Credential hashing of a text field.

use vstd::prelude::*;
use crate::fields::Field;

verus! {

/// `argon2::password_hash::Error`: the hashing library's diagnostic. Carried
/// as it is.
#[verifier::external_type_specification]
#[verifier::external_body]
pub struct ExPasswordHashError(argon2::password_hash::Error);

/// `rand_core::Error`: why the operating system's random source failed.
/// Carried as it is.
#[verifier::external_type_specification]
#[verifier::external_body]
pub struct ExRandomError(argon2::password_hash::rand_core::Error);

/// The memory cost of a hash, in KiB: 64 MiB.
pub const MEMORY_KIB: u32 = 65_536;

/// The number of passes over the memory.
pub const ITERATIONS: u32 = 3;

/// The largest number of lanes that a hash uses.
pub const MAX_LANES: u32 = 4;

/// The length of the hash output, in bytes.
pub const OUTPUT_LEN: usize = 32;

/// The stored text that Argon2id, version 0x13, makes of `password` under
/// `salt` with the given memory in KiB, passes, lanes and output length: the
/// self-describing text that holds the algorithm, those four numbers, the
/// salt and the output. Nothing, where the hashing library refuses the salt
/// or the numbers.
pub uninterp spec fn argon2id_stored(
    password: Seq<char>,
    salt: Seq<char>,
    memory_kib: u32,
    iterations: u32,
    lanes: u32,
    output_len: usize,
) -> Option<Seq<char>>;

/// Whether `stored` is a password hash in the self-describing text format.
pub uninterp spec fn stored_hash_parses(stored: Seq<char>) -> bool;

/// The salt that `stored` holds, if it is a password hash with a salt.
pub uninterp spec fn stored_salt(stored: Seq<char>) -> Option<Seq<char>>;

/// The parameters that `stored` holds, as pairs of a name and a value in the
/// order in which they stand; none, if it is no password hash.
pub uninterp spec fn stored_params(stored: Seq<char>) -> Seq<(Seq<char>, Seq<char>)>;

/// Whether the verification of `candidate` against the password hash `stored`
/// succeeds: the hash holds a salt and an output, and hashing `candidate` as
/// the hash describes gives that output.
pub uninterp spec fn hash_matches(stored: Seq<char>, candidate: Seq<char>) -> bool;

/// The texts of `pairs`, in order.
pub open spec fn pair_views(pairs: Seq<(String, String)>) -> Seq<(Seq<char>, Seq<char>)> {
    Seq::new(pairs.len(), |i: int| (pairs[i].0@, pairs[i].1@))
}

/// The most digits that the lanes of a stored hash may take for the hash to
/// be verified. A number of more digits is a hundred million at least, far
/// above what the hashing library accepts as lanes.
pub const MAX_LANE_DIGITS: usize = 8;

/// Whether the lanes that count among `params` take at most
/// [`MAX_LANE_DIGITS`] characters. Where the name `p` stands more than once,
/// the last one counts; where it does not stand, there is nothing to count.
pub open spec fn lanes_are_short(params: Seq<(Seq<char>, Seq<char>)>) -> bool
    decreases params.len(),
{
    if params.len() == 0 {
        true
    } else if params.last().0 == "p"@ {
        params.last().1.len() <= MAX_LANE_DIGITS
    } else {
        lanes_are_short(params.drop_last())
    }
}

/// Calls `try_fill_bytes` of the operating system's random number generator
/// on as many bytes as the hashing library recommends for a salt. Trusted;
/// the bytes are random, and nothing is claimed of them.
#[verifier::external_body]
fn random_bytes() -> (outcome: Result<Vec<u8>, argon2::password_hash::rand_core::Error>) {
    let mut bytes = [0u8; argon2::password_hash::Salt::RECOMMENDED_LENGTH];
    argon2::password_hash::rand_core::RngCore::try_fill_bytes(
        &mut argon2::password_hash::rand_core::OsRng,
        &mut bytes,
    ).map(|_| bytes.to_vec())
}

/// Calls `SaltString::encode_b64` and copies the salt's text. Trusted;
/// nothing is claimed of the text.
#[verifier::external_body]
fn salt_text(bytes: &[u8]) -> (outcome: Result<String, argon2::password_hash::Error>) {
    argon2::password_hash::SaltString::encode_b64(bytes).map(|salt| salt.as_str().to_owned())
}

/// Calls `argon2::PasswordHash::new` on `stored` and copies the parameters of
/// what was read, each as its name and its value. Trusted: a text that does
/// not parse gives the parse error; else the pairs are the parameters that the
/// text holds, in their order.
#[verifier::external_body]
fn read_parameters(stored: &str) -> (outcome: Result<
    Vec<(String, String)>,
    argon2::password_hash::Error,
>)
    ensures
        match outcome {
            Ok(pairs) => stored_hash_parses(stored@) && pair_views(pairs@) == stored_params(
                stored@,
            ),
            Err(_) => !stored_hash_parses(stored@),
        },
{
    let parsed = argon2::PasswordHash::new(stored)?;
    Ok(
        parsed.params.iter().map(
            |(name, value)| (name.as_str().to_owned(), value.as_str().to_owned()),
        ).collect(),
    )
}

/// Calls `hash_password` on `argon2::Argon2::new` for Argon2id and version
/// 0x13, with the parameters that `argon2::Params::new` makes of the four
/// numbers and the salt that `SaltString::from_b64` reads from `salt`, and
/// writes the hash in the self-describing text format. Trusted: the text
/// depends on the password, the salt and the four numbers alone; it parses
/// as a hash and holds the salt it was made with; and verifying `password`
/// against it recomputes the same output from the salt and parameters that
/// it holds, among them the lanes in decimal, which take at most eight digits
/// below a hundred million. The parameter check multiplies `lanes` by 8 in
/// `u32`; `requires` leaves out the values for which that overflows.
#[verifier::external_body]
fn argon2id_hash(
    password: &str,
    salt: &str,
    memory_kib: u32,
    iterations: u32,
    lanes: u32,
    output_len: usize,
) -> (outcome: Result<String, argon2::password_hash::Error>)
    requires
        lanes * 8 <= u32::MAX,
    ensures
        match outcome {
            Ok(stored) => argon2id_stored(
                password@,
                salt@,
                memory_kib,
                iterations,
                lanes,
                output_len,
            ) == Some(stored@) && stored_hash_parses(stored@) && stored_salt(stored@) == Some(
                salt@,
            ) && hash_matches(stored@, password@) && (lanes < 100_000_000 ==> lanes_are_short(
                stored_params(stored@),
            )),
            Err(_) => argon2id_stored(
                password@,
                salt@,
                memory_kib,
                iterations,
                lanes,
                output_len,
            ) is None,
        },
{
    let params = argon2::Params::new(memory_kib, iterations, lanes, Some(output_len))?;
    let salt = argon2::password_hash::SaltString::from_b64(salt)?;
    let hasher = argon2::Argon2::new(argon2::Algorithm::Argon2id, argon2::Version::V0x13, params);
    argon2::PasswordHasher::hash_password(&hasher, password.as_bytes(), &salt).map(
        |hash| hash.to_string(),
    )
}

/// Calls `argon2::PasswordHash::new` on `stored` and, where that parses,
/// `verify_password` on `argon2::Argon2::default`. Trusted: a text that does
/// not parse gives the parse error; for one that parses, the answer is whether
/// the verification succeeds, and depends on the two texts alone. The
/// outputs are compared in constant time by the hashing library. The
/// verification multiplies the lanes that the text holds by 8 in `u32`;
/// `requires` leaves out the texts whose lanes take more than eight digits,
/// which is where that can overflow.
#[verifier::external_body]
fn argon2_verify(stored: &str, candidate: &str) -> (outcome: Result<
    bool,
    argon2::password_hash::Error,
>)
    requires
        lanes_are_short(stored_params(stored@)),
    ensures
        match outcome {
            Ok(matched) => stored_hash_parses(stored@) && matched == hash_matches(
                stored@,
                candidate@,
            ),
            Err(_) => !stored_hash_parses(stored@),
        },
{
    let parsed = argon2::PasswordHash::new(stored)?;
    Ok(
        argon2::PasswordVerifier::verify_password(
            &argon2::Argon2::default(),
            candidate.as_bytes(),
            &parsed,
        ).is_ok(),
    )
}

/// Why hashing or verifying a credential failed.
#[derive(Debug)]
pub enum HashError {
    /// The operating system's random source gave no bytes for a salt; its
    /// diagnostic is carried.
    Random(argon2::password_hash::rand_core::Error),
    /// The random bytes could not be written as a salt; the diagnostic is
    /// carried.
    Salt(argon2::password_hash::Error),
    /// The hashing library could not compute the hash; its diagnostic is
    /// carried.
    Hash(argon2::password_hash::Error),
    /// The stored text is not a hash in the self-describing format; the
    /// diagnostic is carried.
    Parse(argon2::password_hash::Error),
}

/// The number of lanes of a hash on a machine with `available` hardware
/// threads: as many as there are, at least 1 and at most [`MAX_LANES`]; 1
/// where the number is not known.
pub open spec fn lanes_for(available: Option<usize>) -> u32 {
    match available {
        Some(threads) => if threads == 0 {
            1
        } else if threads > MAX_LANES {
            MAX_LANES
        } else {
            threads as u32
        },
        None => 1,
    }
}

/// The number of lanes of a hash on a machine with `available` hardware
/// threads.
pub fn lanes(available: Option<usize>) -> (count: u32)
    ensures
        count == lanes_for(available),
        1 <= count <= MAX_LANES,
{
    match available {
        Some(threads) => if threads == 0 {
            1
        } else if threads > 4 {
            MAX_LANES
        } else {
            threads as u32
        },
        None => 1,
    }
}

/// The parameter set of every hash on a machine with `available` hardware
/// threads: memory in KiB, passes, lanes and output length.
pub fn hash_parameters(available: Option<usize>) -> (set: (u32, u32, u32, usize))
    ensures
        set == (MEMORY_KIB, ITERATIONS, lanes_for(available), OUTPUT_LEN),
{
    (MEMORY_KIB, ITERATIONS, lanes(available), OUTPUT_LEN)
}

/// The stored text of `password` under `salt` on a machine with `available`
/// hardware threads, if the hashing library computes one.
pub open spec fn stored_for(password: Seq<char>, salt: Seq<char>, available: Option<usize>)
    -> Option<Seq<char>> {
    argon2id_stored(password, salt, MEMORY_KIB, ITERATIONS, lanes_for(available), OUTPUT_LEN)
}

/// A stored credential hash: the self-describing text that holds the
/// algorithm, its parameters, the salt and the output.
#[derive(Debug)]
pub struct FieldArgon2(pub String);

/// What hashing `password` under `salt` gives: where the hashing library
/// computes a stored text, that text, which parses as a hash, holds the salt
/// and lanes of few digits, and verifies the password; where it computes
/// none, a hash error.
pub open spec fn hashes_to(
    password: Seq<char>,
    salt: Seq<char>,
    available: Option<usize>,
    result: Result<FieldArgon2, HashError>,
) -> bool {
    match result {
        Ok(stored) => stored_for(password, salt, available) == Some(stored.0@)
            && stored_hash_parses(stored.0@) && stored_salt(stored.0@) == Some(salt)
            && lanes_are_short(stored_params(stored.0@)) && hash_matches(stored.0@, password),
        Err(error) => stored_for(password, salt, available) is None && error is Hash,
    }
}

/// Whether `candidate` verifies against the password hash `stored`: the lanes
/// that the hash holds take few digits, and the verification succeeds. Lanes
/// of more digits are beyond what the hashing library accepts, so such a hash
/// verifies nothing.
pub open spec fn verifies(stored: Seq<char>, candidate: Seq<char>) -> bool {
    lanes_are_short(stored_params(stored)) && hash_matches(stored, candidate)
}

/// What the verification of `candidate` against `stored` gives: a hash-parse
/// error for a stored text that is no hash, else whether the candidate
/// verifies.
pub open spec fn verifies_to(
    stored: Seq<char>,
    candidate: Seq<char>,
    result: Result<bool, HashError>,
) -> bool {
    match result {
        Ok(matched) => stored_hash_parses(stored) && matched == verifies(stored, candidate),
        Err(error) => !stored_hash_parses(stored) && error is Parse,
    }
}

/// Whether the lanes that count among `pairs` take few characters.
fn has_short_lanes(pairs: &Vec<(String, String)>) -> (short: bool)
    ensures
        short == lanes_are_short(pair_views(pairs@)),
{
    let name = String::from_str("p");
    let mut i = pairs.len();
    assert(pair_views(pairs@).take(i as int) =~= pair_views(pairs@));
    while i > 0
        invariant
            i <= pairs@.len(),
            name@ == "p"@,
            lanes_are_short(pair_views(pairs@)) == lanes_are_short(
                pair_views(pairs@).take(i as int),
            ),
        decreases i,
    {
        let ghost upto = pair_views(pairs@).take(i as int);
        assert(upto.last() == (pairs@[i - 1].0@, pairs@[i - 1].1@));
        assert(upto.drop_last() =~= pair_views(pairs@).take(i - 1));
        if pairs[i - 1].0 == name {
            return pairs[i - 1].1.as_str().unicode_len() <= MAX_LANE_DIGITS;
        }
        i -= 1;
    }
    assert(pair_views(pairs@).take(0).len() == 0);
    true
}

impl FieldArgon2 {
    /// Wraps what the hashing library returned: the stored text, or a hash
    /// error that carries its diagnostic.
    pub fn from_outcome(outcome: Result<String, argon2::password_hash::Error>) -> (result: Result<
        FieldArgon2,
        HashError,
    >)
        ensures
            match (outcome, result) {
                (Ok(stored), Ok(wrapper)) => wrapper.0 == stored,
                (Err(cause), Err(HashError::Hash(carried))) => carried == cause,
                _ => false,
            },
    {
        match outcome {
            Ok(stored) => Ok(FieldArgon2(stored)),
            Err(error) => Err(HashError::Hash(error)),
        }
    }

    /// What the verification of a candidate gives, from what the hashing
    /// library returned: its answer, or a hash-parse error that carries its
    /// diagnostic.
    pub fn from_verdict(outcome: Result<bool, argon2::password_hash::Error>) -> (result: Result<
        bool,
        HashError,
    >)
        ensures
            match (outcome, result) {
                (Ok(matched), Ok(answer)) => answer == matched,
                (Err(cause), Err(HashError::Parse(carried))) => carried == cause,
                _ => false,
            },
    {
        match outcome {
            Ok(matched) => Ok(matched),
            Err(error) => Err(HashError::Parse(error)),
        }
    }

    /// Checks `candidate` against the stored hash. A stored text that is no
    /// hash is a hash-parse error; a mismatch is `false`, not an error, and so
    /// is a hash whose lanes the hashing library cannot take.
    pub fn verify(&self, candidate: &str) -> (result: Result<bool, HashError>)
        ensures
            verifies_to(self.0@, candidate@, result),
    {
        match read_parameters(self.0.as_str()) {
            Err(error) => Err(HashError::Parse(error)),
            Ok(pairs) => if has_short_lanes(&pairs) {
                FieldArgon2::from_verdict(argon2_verify(self.0.as_str(), candidate))
            } else {
                Ok(false)
            },
        }
    }
}

impl Field<String> {
    /// Hashes the field's text as a credential under `salt`, with Argon2id
    /// and the parameter set of [`hash_parameters`]: 64 MiB, 3 passes, the
    /// lanes of [`lanes_for`] and 32 bytes of output. `available` is the
    /// number of hardware threads of the machine, where it is known.
    ///
    /// The hashing library decides whether it accepts the salt; the result is
    /// the stored text it computes, or a hash error.
    pub fn argon2_hash_with_salt(self, salt: &str, available: Option<usize>) -> (result: Result<
        FieldArgon2,
        HashError,
    >)
        ensures
            hashes_to(self.0.value@, salt@, available, result),
    {
        let (memory_kib, iterations, lanes, output_len) = hash_parameters(available);
        FieldArgon2::from_outcome(
            argon2id_hash(self.0.value.as_str(), salt, memory_kib, iterations, lanes, output_len),
        )
    }

    /// Hashes the field's text as a credential, as
    /// [`Field::argon2_hash_with_salt`] does, under a salt that is drawn
    /// afresh for each call. Where the operating system gives no random bytes,
    /// or they cannot be written as a salt, that is the error; else the result
    /// is that of hashing under the salt that was drawn.
    pub fn argon2_hash(self, available: Option<usize>) -> (result: Result<FieldArgon2, HashError>)
        ensures
            match result {
                Err(HashError::Random(_)) | Err(HashError::Salt(_)) => true,
                _ => exists|salt: Seq<char>| hashes_to(self.0.value@, salt, available, result),
            },
    {
        let bytes = match random_bytes() {
            Ok(bytes) => bytes,
            Err(error) => { return Err(HashError::Random(error)); },
        };
        let salt = match salt_text(bytes.as_slice()) {
            Ok(salt) => salt,
            Err(error) => { return Err(HashError::Salt(error)); },
        };
        let result = self.argon2_hash_with_salt(salt.as_str(), available);
        assert(hashes_to(self.0.value@, salt@, available, result));
        result
    }
}

/// Two hashes of one text under different salts differ: each stored text
/// holds the salt it was made with.
pub proof fn law_distinct_salts_give_distinct_hashes(
    password: Seq<char>,
    first_salt: Seq<char>,
    second_salt: Seq<char>,
    available: Option<usize>,
    first: FieldArgon2,
    second: FieldArgon2,
)
    requires
        first_salt != second_salt,
        hashes_to(password, first_salt, available, Ok(first)),
        hashes_to(password, second_salt, available, Ok(second)),
    ensures
        first.0@ != second.0@,
{
}

/// A hash verifies the text it was made of, whatever the salt: the
/// verification of that text against the stored text answers `true`, and
/// never fails.
pub proof fn law_hash_verifies_its_plaintext(
    password: Seq<char>,
    salt: Seq<char>,
    available: Option<usize>,
    stored: FieldArgon2,
    verdict: Result<bool, HashError>,
)
    requires
        hashes_to(password, salt, available, Ok(stored)),
        verifies_to(stored.0@, password, verdict),
    ensures
        verdict matches Ok(matched) && matched,
{
}

/// The verification of any candidate against a stored hash answers, and does
/// not fail: a mismatch is `false`, no error.
pub proof fn law_mismatch_is_no_error(
    stored: Seq<char>,
    candidate: Seq<char>,
    verdict: Result<bool, HashError>,
)
    requires
        stored_hash_parses(stored),
        verifies_to(stored, candidate, verdict),
    ensures
        verdict matches Ok(matched) && matched == verifies(stored, candidate),
{
}

} // verus!

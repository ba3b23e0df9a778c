//! Password digests: the hashing configuration, and deriving and checking
//! digests with Argon2.

use crate::text::same_text;
use crate::{DataError, DataErrorView};
use vstd::prelude::*;

verus! {

/// The least memory cost, in KiB, that Argon2 accepts.
pub const MIN_M_COST: u32 = 8;

/// The greatest degree of parallelism that Argon2 accepts.
pub const MAX_P_COST: u32 = 0xFF_FFFF;

/// The shortest output, in bytes, that Argon2 accepts.
pub const MIN_OUTPUT_LEN: usize = 4;

/// The longest output, in bytes, that Argon2 accepts.
pub const MAX_OUTPUT_LEN: usize = 0xFFFF_FFFF;

/// The longest server secret, in bytes, that Argon2 accepts.
pub const MAX_SECRET_LEN: usize = 0xFFFF_FFFF;

/// The recommended memory cost, in KiB.
pub const DEFAULT_M_COST: u32 = 19456;

/// The recommended number of passes.
pub const DEFAULT_T_COST: u32 = 2;

/// The recommended degree of parallelism.
pub const DEFAULT_P_COST: u32 = 1;

/// The number of characters of a freshly generated salt: sixteen bytes in
/// unpadded base 64.
pub const SALT_TEXT_LEN: usize = 22;

/// The variant of Argon2.
#[derive(Clone, Copy, Debug, PartialEq, Eq, Structural)]
pub enum Algorithm {
    Argon2d,
    Argon2i,
    Argon2id,
}

impl Algorithm {
    /// The identifier of the variant in an encoded digest.
    pub open spec fn ident_text(self) -> Seq<char> {
        match self {
            Algorithm::Argon2d => "argon2d"@,
            Algorithm::Argon2i => "argon2i"@,
            Algorithm::Argon2id => "argon2id"@,
        }
    }

    /// The identifier of the variant in an encoded digest.
    pub fn ident(&self) -> (ident: &'static str)
        ensures
            ident@ == self.ident_text(),
    {
        match self {
            Algorithm::Argon2d => "argon2d",
            Algorithm::Argon2i => "argon2i",
            Algorithm::Argon2id => "argon2id",
        }
    }
}

/// The version of Argon2.
#[derive(Clone, Copy, Debug, PartialEq, Eq, Structural)]
pub enum Version {
    V0x10,
    V0x13,
}

impl Version {
    /// The number of the version in an encoded digest.
    pub open spec fn number_spec(&self) -> u32 {
        match self {
            Version::V0x10 => 0x10,
            Version::V0x13 => 0x13,
        }
    }

    /// The number of the version in an encoded digest.
    #[verifier::when_used_as_spec(number_spec)]
    pub fn number(&self) -> (number: u32)
        ensures
            number == self.number_spec(),
    {
        match self {
            Version::V0x10 => 0x10,
            Version::V0x13 => 0x13,
        }
    }
}

/// Why a password was not accepted for a digest.
#[derive(Clone, Copy, Debug, PartialEq, Eq, Structural)]
pub enum VerifyFailure {
    /// The digest is not a well-formed encoded digest.
    CorruptDigest,
    /// The password does not reproduce the digest.
    CredentialMismatch,
}

/// The cost parameters that Argon2 accepts.
pub open spec fn params_valid(m_cost: u32, t_cost: u32, p_cost: u32, output_len: Option<usize>) -> bool {
    &&& m_cost >= MIN_M_COST
    &&& m_cost >= 8 * p_cost
    &&& t_cost >= 1
    &&& 1 <= p_cost <= MAX_P_COST
    &&& output_len matches Some(len) ==> MIN_OUTPUT_LEN <= len <= MAX_OUTPUT_LEN
}

/// Whether `c` is a character of the base 64 alphabet.
pub open spec fn is_base64_char(c: char) -> bool {
    ||| 'A' <= c <= 'Z'
    ||| 'a' <= c <= 'z'
    ||| '0' <= c <= '9'
    ||| c == '+'
    ||| c == '/'
}

/// Whether `salt` has the form of a freshly generated salt.
pub open spec fn is_salt_text(salt: Seq<char>) -> bool {
    &&& salt.len() == SALT_TEXT_LEN
    &&& forall|i: int| 0 <= i < salt.len() ==> is_base64_char(#[trigger] salt[i])
}

/// Whether no parameter `p` of an encoded digest is above the greatest
/// degree of parallelism.
pub open spec fn lanes_in_range(params: Seq<(Seq<char>, Option<u32>)>) -> bool {
    forall|i: int|
        0 <= i < params.len() && (#[trigger] params[i]).0 == "p"@ ==> (params[i].1 matches Some(lanes)
            ==> lanes <= MAX_P_COST)
}

/// The message of a refused configuration.
pub const INVALID_CONFIGURATION: &'static str = "the Argon2 parameters or the secret are out of range";

/// The server-wide hashing configuration: the secret that keys every digest,
/// and the variant, version and cost parameters of new digests. A value of
/// this type always holds parameters that Argon2 accepts.
#[derive(Debug)]
pub struct Argon2Config {
    secret: Vec<u8>,
    algorithm: Algorithm,
    version: Version,
    m_cost: u32,
    t_cost: u32,
    p_cost: u32,
    output_len: Option<usize>,
}

/// What an [`Argon2Config`] holds.
pub struct Argon2ConfigView {
    pub secret: Seq<u8>,
    pub algorithm: Algorithm,
    pub version: Version,
    pub m_cost: u32,
    pub t_cost: u32,
    pub p_cost: u32,
    pub output_len: Option<usize>,
}

impl Argon2ConfigView {
    /// Whether Argon2 accepts the configuration.
    pub open spec fn valid(self) -> bool {
        &&& params_valid(self.m_cost, self.t_cost, self.p_cost, self.output_len)
        &&& self.secret.len() <= MAX_SECRET_LEN
    }

    /// The encoded digest of `password` under this configuration and `salt`,
    /// where Argon2 derives one.
    pub open spec fn digest(self, password: Seq<char>, salt: Seq<char>) -> Option<Seq<char>> {
        argon2_phc(
            self.secret,
            self.algorithm.ident_text(),
            self.version.number_spec(),
            self.m_cost,
            self.t_cost,
            self.p_cost,
            self.output_len,
            password,
            salt,
        )
    }

    /// Whether `password` is accepted for `digest` under this configuration's
    /// secret.
    pub open spec fn verdict(self, password: Seq<char>, digest: Seq<char>) -> Result<(), VerifyFailure> {
        verdict_of(argon2_phc_params(digest), argon2_verdict(self.secret, password, digest))
    }
}

/// The outcome of a verification, from the parameters that the digest lists
/// and from what Argon2 says of the password: a digest that does not parse, or
/// that names a parallelism out of range, is corrupt.
pub open spec fn verdict_of(params: Option<Seq<(Seq<char>, Option<u32>)>>, accepted: Option<bool>) -> Result<
    (),
    VerifyFailure,
> {
    match params {
        None => Err(VerifyFailure::CorruptDigest),
        Some(listed) => if !lanes_in_range(listed) {
            Err(VerifyFailure::CorruptDigest)
        } else {
            match accepted {
                None => Err(VerifyFailure::CorruptDigest),
                Some(true) => Ok(()),
                Some(false) => Err(VerifyFailure::CredentialMismatch),
            }
        },
    }
}

/// The encoded digest that Argon2 derives from a password and a salt under a
/// secret, a variant, a version and cost parameters, where it derives one.
pub uninterp spec fn argon2_phc(
    secret: Seq<u8>,
    algorithm: Seq<char>,
    version: u32,
    m_cost: u32,
    t_cost: u32,
    p_cost: u32,
    output_len: Option<usize>,
    password: Seq<char>,
    salt: Seq<char>,
) -> Option<Seq<char>>;

/// Whether Argon2 under a secret accepts a password for an encoded digest;
/// nothing where the digest is not a well-formed encoded digest.
pub uninterp spec fn argon2_verdict(secret: Seq<u8>, password: Seq<char>, digest: Seq<char>) -> Option<bool>;

/// The parameters of an encoded digest in the order in which it lists them,
/// each with its name and, where its value is a decimal number, that number;
/// nothing where the digest is not a well-formed encoded digest.
pub uninterp spec fn argon2_phc_params(digest: Seq<char>) -> Option<Seq<(Seq<char>, Option<u32>)>>;

/// `argon2::Params::new`: whether it accepts the cost parameters. Its source
/// refuses a memory cost under 8 KiB or under eight times the parallelism, no
/// pass at all, a parallelism of zero or above 2^24 - 1, and an output length
/// outside 4 ..= 2^32 - 1. It multiplies the parallelism by eight in 32 bits,
/// so the product must fit.
#[verifier::external_body]
fn params_accepted(m_cost: u32, t_cost: u32, p_cost: u32, output_len: Option<usize>) -> (accepted: bool)
    requires
        8 * p_cost <= u32::MAX,
    ensures
        accepted == params_valid(m_cost, t_cost, p_cost, output_len),
{
    argon2::Params::new(m_cost, t_cost, p_cost, output_len).is_ok()
}

/// `SaltString::generate` on the operating system's random source: sixteen
/// random bytes in unpadded base 64. Two calls may differ; every outcome has
/// 22 characters of the base 64 alphabet. The random source panics where the
/// operating system cannot serve it.
#[verifier::external_body]
fn fresh_salt() -> (salt: String)
    ensures
        is_salt_text(salt@),
{
    let salt = argon2::password_hash::SaltString::generate(&mut argon2::password_hash::rand_core::OsRng);
    salt.as_str().to_owned()
}

/// `PasswordHasher::hash_password` of an `Argon2` context made with
/// `Argon2::new_with_secret`, and the digest's encoding as text. The result
/// is a function of the arguments, named [`argon2_phc`]. The text begins with
/// a `$`, so it is not empty. The digest lists the three cost parameters as
/// `m`, `t` and `p`, in this order and in decimal, and
/// `PasswordVerifier::verify_password` under the same secret accepts the same
/// password for it: it derives the output again from the parameters and the
/// salt that the digest holds and compares. The parallelism is multiplied by
/// eight in 32 bits, so the product must fit.
#[verifier::external_body]
fn phc_hash(
    secret: &[u8],
    algorithm: &str,
    version: u32,
    m_cost: u32,
    t_cost: u32,
    p_cost: u32,
    output_len: Option<usize>,
    password: &str,
    salt: &str,
) -> (res: Option<String>)
    requires
        8 * p_cost <= u32::MAX,
    ensures
        res matches Some(digest) ==> argon2_phc(
            secret@,
            algorithm@,
            version,
            m_cost,
            t_cost,
            p_cost,
            output_len,
            password@,
            salt@,
        ) == Some(digest@),
        res is None ==> argon2_phc(
            secret@,
            algorithm@,
            version,
            m_cost,
            t_cost,
            p_cost,
            output_len,
            password@,
            salt@,
        ) is None,
        res matches Some(digest) ==> digest@.len() > 0,
        res matches Some(digest) ==> argon2_verdict(secret@, password@, digest@) == Some(true),
        res matches Some(digest) ==> argon2_phc_params(digest@) == Some(
            seq![("m"@, Some(m_cost)), ("t"@, Some(t_cost)), ("p"@, Some(p_cost))],
        ),
{
    let params = argon2::Params::new(m_cost, t_cost, p_cost, output_len).ok()?;
    let algorithm = argon2::Algorithm::new(algorithm).ok()?;
    let version = argon2::Version::try_from(version).ok()?;
    let context = argon2::Argon2::new_with_secret(secret, algorithm, version, params).ok()?;
    let salt = argon2::password_hash::SaltString::from_b64(salt).ok()?;
    let digest = argon2::PasswordHasher::hash_password(&context, password.as_bytes(), &salt).ok()?;
    Some(digest.to_string())
}

/// `PasswordHash::new` and the parameters of the digest it parses, each with
/// its name and `Value::decimal` of its value. The result is a function of
/// the digest, named [`argon2_phc_params`].
#[verifier::external_body]
fn phc_params(digest: &str) -> (params: Option<Vec<(String, Option<u32>)>>)
    ensures
        params.deep_view() == argon2_phc_params(digest@),
{
    let parsed = argon2::PasswordHash::new(digest).ok()?;
    Some(parsed.params.iter().map(|(name, value)| (name.as_str().to_owned(), value.decimal().ok())).collect())
}

/// `PasswordHash::new` and `PasswordVerifier::verify_password` of an `Argon2`
/// context with the secret. The result is a function of the arguments, named
/// [`argon2_verdict`]: nothing exactly where the digest does not parse, and
/// else whether the password was accepted. The cost parameters come from the
/// digest: the call takes the memory and runs the passes that it names. Its
/// last `p` is multiplied by eight in 32 bits, so no `p` of the digest may be
/// above 2^24 - 1.
#[verifier::external_body]
fn phc_verify(secret: &[u8], password: &str, digest: &str) -> (verdict: Option<bool>)
    requires
        secret@.len() <= MAX_SECRET_LEN,
        argon2_phc_params(digest@) matches Some(params) ==> lanes_in_range(params),
    ensures
        verdict == argon2_verdict(secret@, password@, digest@),
        verdict is None <==> argon2_phc_params(digest@) is None,
{
    let parsed = argon2::PasswordHash::new(digest).ok()?;
    let context = argon2::Argon2::new_with_secret(
        secret,
        argon2::Algorithm::default(),
        argon2::Version::default(),
        argon2::Params::default(),
    ).ok()?;
    Some(argon2::PasswordVerifier::verify_password(&context, password.as_bytes(), &parsed).is_ok())
}

impl View for Argon2Config {
    type V = Argon2ConfigView;

    closed spec fn view(&self) -> Argon2ConfigView {
        Argon2ConfigView {
            secret: self.secret@,
            algorithm: self.algorithm,
            version: self.version,
            m_cost: self.m_cost,
            t_cost: self.t_cost,
            p_cost: self.p_cost,
            output_len: self.output_len,
        }
    }
}

/// What a derivation gives: the digest, or a hashing failure where Argon2
/// derived none.
pub fn digest_outcome(derived: Option<String>) -> (res: Result<String, DataError>)
    ensures
        match derived {
            Some(digest) => res == Ok::<String, DataError>(digest),
            None => res matches Err(e) && e@ == DataErrorView::Hash,
        },
{
    match derived {
        Some(digest) => Ok(digest),
        None => Err(DataError::Hash),
    }
}

/// Whether a parameter list names no parallelism out of range.
pub fn lanes_acceptable(params: &Vec<(String, Option<u32>)>) -> (acceptable: bool)
    ensures
        acceptable == lanes_in_range(params.deep_view()),
{
    let mut i: usize = 0;
    while i < params.len()
        invariant
            i <= params.len(),
            forall|j: int|
                0 <= j < i && (#[trigger] params.deep_view()[j]).0 == "p"@ ==> (params.deep_view()[j].1 matches Some(
                    lanes,
                ) ==> lanes <= MAX_P_COST),
        decreases params.len() - i,
    {
        let entry = &params[i];
        assert(params.deep_view()[i as int] == (entry.0@, entry.1));
        if same_text(entry.0.as_str(), "p") {
            match entry.1 {
                Some(lanes) => {
                    if lanes > MAX_P_COST {
                        return false;
                    }
                },
                None => {},
            }
        }
        i += 1;
    }
    true
}

/// The outcome of a verification: see [`verdict_of`].
pub fn verdict_outcome(params_acceptable: Option<bool>, accepted: Option<bool>) -> (res: Result<(), VerifyFailure>)
    ensures
        res == match params_acceptable {
            Some(true) => match accepted {
                None => Err(VerifyFailure::CorruptDigest),
                Some(true) => Ok(()),
                Some(false) => Err(VerifyFailure::CredentialMismatch),
            },
            _ => Err(VerifyFailure::CorruptDigest),
        },
{
    match params_acceptable {
        Some(true) => match accepted {
            None => Err(VerifyFailure::CorruptDigest),
            Some(true) => Ok(()),
            Some(false) => Err(VerifyFailure::CredentialMismatch),
        },
        _ => Err(VerifyFailure::CorruptDigest),
    }
}

impl Argon2Config {
    #[verifier::type_invariant]
    spec fn accepted(self) -> bool {
        self@.valid()
    }

    /// Makes a configuration, where Argon2 accepts the cost parameters and
    /// the secret is not too long. Every digest takes `m_cost` KiB of memory
    /// while it is derived.
    pub fn new(
        secret: Vec<u8>,
        algorithm: Algorithm,
        version: Version,
        m_cost: u32,
        t_cost: u32,
        p_cost: u32,
        output_len: Option<usize>,
    ) -> (res: Result<Argon2Config, DataError>)
        ensures
            match res {
                Ok(config) => config@ == (Argon2ConfigView {
                    secret: secret@,
                    algorithm,
                    version,
                    m_cost,
                    t_cost,
                    p_cost,
                    output_len,
                }) && config@.valid(),
                Err(e) => e@ == DataErrorView::InvalidArgument(INVALID_CONFIGURATION@) && !(params_valid(
                    m_cost,
                    t_cost,
                    p_cost,
                    output_len,
                ) && secret@.len() <= MAX_SECRET_LEN),
            },
    {
        if p_cost > MAX_P_COST || secret.len() > MAX_SECRET_LEN || !params_accepted(
            m_cost,
            t_cost,
            p_cost,
            output_len,
        ) {
            return Err(DataError::InvalidArgument(INVALID_CONFIGURATION.to_owned()));
        }
        Ok(Argon2Config { secret, algorithm, version, m_cost, t_cost, p_cost, output_len })
    }

    /// The recommended configuration under `secret`: Argon2id, version 0x13,
    /// 19 MiB of memory, two passes, one lane, the default output length.
    pub fn recommended(secret: Vec<u8>) -> (res: Result<Argon2Config, DataError>)
        ensures
            match res {
                Ok(config) => config@ == (Argon2ConfigView {
                    secret: secret@,
                    algorithm: Algorithm::Argon2id,
                    version: Version::V0x13,
                    m_cost: DEFAULT_M_COST,
                    t_cost: DEFAULT_T_COST,
                    p_cost: DEFAULT_P_COST,
                    output_len: None,
                }) && config@.valid(),
                Err(e) => e@ == DataErrorView::InvalidArgument(INVALID_CONFIGURATION@) && secret@.len()
                    > MAX_SECRET_LEN,
            },
    {
        Argon2Config::new(
            secret,
            Algorithm::Argon2id,
            Version::V0x13,
            DEFAULT_M_COST,
            DEFAULT_T_COST,
            DEFAULT_P_COST,
            None,
        )
    }

    /// Derives a digest of `password` under a fresh random salt. Every digest
    /// that comes back is the one Argon2 derives under some salt of the form
    /// of a fresh one, and the same password verifies against it.
    pub fn derive(&self, password: &str) -> (res: Result<String, DataError>)
        ensures
            match res {
                Ok(digest) => {
                    &&& digest@.len() > 0
                    &&& exists|salt: Seq<char>| #[trigger]
                        is_salt_text(salt) && self@.digest(password@, salt) == Some(digest@)
                    &&& self@.verdict(password@, digest@) is Ok
                },
                Err(e) => {
                    &&& e@ == DataErrorView::Hash
                    &&& exists|salt: Seq<char>| #[trigger]
                        is_salt_text(salt) && self@.digest(password@, salt) is None
                },
            },
    {
        proof {
            use_type_invariant(self);
        }
        let salt = fresh_salt();
        let derived = phc_hash(
            self.secret.as_slice(),
            self.algorithm.ident(),
            self.version.number(),
            self.m_cost,
            self.t_cost,
            self.p_cost,
            self.output_len,
            password,
            salt.as_str(),
        );
        proof {
            assert(is_salt_text(salt@));
            if derived is Some {
                reveal_strlit("m");
                reveal_strlit("t");
                reveal_strlit("p");
                let listed = seq![("m"@, Some(self.m_cost)), ("t"@, Some(self.t_cost)), ("p"@, Some(self.p_cost))];
                assert("m"@[0] != "p"@[0]);
                assert("t"@[0] != "p"@[0]);
                assert(lanes_in_range(listed));
            }
        }
        digest_outcome(derived)
    }

    /// Checks `password` against `digest`: see [`Argon2ConfigView::verdict`].
    pub fn check(&self, password: &str, digest: &str) -> (res: Result<(), VerifyFailure>)
        ensures
            res == self@.verdict(password@, digest@),
    {
        proof {
            use_type_invariant(self);
        }
        match phc_params(digest) {
            None => verdict_outcome(None, None),
            Some(params) => {
                if lanes_acceptable(&params) {
                    let accepted = phc_verify(self.secret.as_slice(), password, digest);
                    verdict_outcome(Some(true), accepted)
                } else {
                    verdict_outcome(Some(false), None)
                }
            },
        }
    }
}

} // verus!

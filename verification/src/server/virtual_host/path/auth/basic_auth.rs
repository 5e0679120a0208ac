//! HTTP basic authentication.

use argon2::PasswordVerifier;
use base64::Engine;
use vstd::prelude::*;
use vstd::utf8::{decode_utf8, encode_utf8, valid_utf8};

use crate::config::server::virtual_host::path::auth::{Algorithm, BasicAuthConfig, BasicAuthSettings};
use crate::errors::{VetisError, VirtualHostError};
use crate::server::virtual_host::path::auth::Auth;
use crate::text::{split_once_char, split_once_spec, utf8_text, visible_ascii};

verus! {

/// What the standard base64 alphabet, with padding, decodes `input` to: the bytes, or
/// the text of the decoding error.
pub uninterp spec fn base64_standard_decode(input: Seq<u8>) -> Result<Seq<u8>, Seq<char>>;

/// What bcrypt's verification of `password` against `hash` gives: whether they
/// match, or `None` when the hash cannot be used.
pub uninterp spec fn bcrypt_verify_result(password: Seq<char>, hash: Seq<char>) -> Option<bool>;

/// Whether Argon2, with its default parameters, accepts the password bytes for the
/// PHC hash string.
pub uninterp spec fn argon2_accepts(password: Seq<u8>, hash: Seq<char>) -> bool;

/// Decodes standard base64 (with padding).
///
/// Calls `base64::engine::general_purpose::STANDARD.decode`; the error is kept as the
/// text its `Display` writes.
#[verifier::external_body]
fn base64_decode(input: &[u8]) -> (res: Result<Vec<u8>, String>)
    ensures
        res is Ok <==> base64_standard_decode(input@) is Ok,
        res is Ok ==> res->Ok_0@ == base64_standard_decode(input@)->Ok_0,
        res is Err ==> res->Err_0@ == base64_standard_decode(input@)->Err_0,
{
    base64::engine::general_purpose::STANDARD.decode(input).map_err(|e| format!("{}", e))
}

/// Checks a password against a bcrypt hash.
///
/// Calls `bcrypt::verify`. Its source rejects, with an error, every hash that is not
/// exactly 60 ASCII bytes, so a hash of another length in characters gives `None`.
#[verifier::external_body]
fn bcrypt_verify(password: &str, hash: &str) -> (res: Option<bool>)
    ensures
        res == bcrypt_verify_result(password@, hash@),
        hash@.len() != 60 ==> res is None,
{
    bcrypt::verify(password, hash).ok()
}

/// Checks password bytes against an Argon2 PHC hash string.
///
/// Calls `PasswordVerifier::<str>::verify_password` of `argon2::Argon2::default()`,
/// which parses the hash and verifies the password; it succeeds only when both do.
#[verifier::external_body]
fn argon2_verify(password: &[u8], hash: &str) -> (res: bool)
    ensures
        res == argon2_accepts(password@, hash@),
{
    argon2::Argon2::default().verify_password(password, hash).is_ok()
}

/// The bytes of `Basic ` that open a basic authorization header.
pub open spec fn basic_scheme() -> Seq<u8> {
    seq![66u8, 97u8, 115u8, 105u8, 99u8, 32u8]
}

/// The error text of an authorization header that is not text.
pub open spec fn invalid_header_message() -> Seq<char> {
    "Invalid Authorization header"@
}

/// The user name and password of an `Authorization` header value, or the text of
/// the error it is refused with.
///
/// The value must be visible ASCII text, start with `Basic `, and go on with the
/// standard base64 encoding of UTF-8 text `user:password`.
pub open spec fn basic_credentials(header: Option<Seq<u8>>) -> Result<(Seq<char>, Seq<char>), Seq<char>> {
    match header {
        None => Err("Missing Authorization header"@),
        Some(value) => if !visible_ascii(value) {
            Err(invalid_header_message())
        } else if !(value.len() >= 6 && value.take(6) == basic_scheme()) {
            Err("Expected basic authentication"@)
        } else {
            match base64_standard_decode(value.skip(6)) {
                Err(e) => Err("Could not decode header: "@ + e),
                Ok(raw) => if !valid_utf8(raw) {
                    Err(invalid_header_message())
                } else {
                    match split_once_spec(decode_utf8(raw), ':') {
                        None => Err("Invalid credentials"@),
                        Some(pair) => Ok(pair),
                    }
                },
            }
        },
    }
}

/// Whether `password` matches `hash` under `algorithm`; a bcrypt hash that cannot be
/// used matches nothing.
pub open spec fn password_matches(algorithm: Algorithm, password: Seq<char>, hash: Seq<char>) -> bool {
    match algorithm {
        Algorithm::BCrypt => bcrypt_verify_result(password, hash) == Some(true),
        Algorithm::Argon2 => argon2_accepts(encode_utf8(password), hash),
    }
}

/// The outcome of basic authentication with a user table: whether the credentials of
/// the header name a known user whose password matches, or the error text.
pub open spec fn basic_auth_outcome(settings: BasicAuthSettings, header: Option<Seq<u8>>) -> Result<bool, Seq<char>> {
    match basic_credentials(header) {
        Err(message) => Err(message),
        Ok((user, password)) => if settings.users.contains_key(user) {
            Ok(password_matches(settings.algorithm, password, settings.users[user]))
        } else {
            Ok(false)
        },
    }
}

/// The view of an optional header value.
pub open spec fn header_view(header: Option<&[u8]>) -> Option<Seq<u8>> {
    match header {
        Some(v) => Some(v@),
        None => None,
    }
}

/// `res` is what authentication returns for `outcome`: the boolean, or the error
/// text as an authentication error of the virtual host.
pub open spec fn reports_outcome(res: Result<bool, VetisError>, outcome: Result<bool, Seq<char>>) -> bool {
    match outcome {
        Ok(b) => res == Ok::<bool, VetisError>(b),
        Err(message) => res matches Err(VetisError::VirtualHost(VirtualHostError::Auth(m)))
            && m@ == message,
    }
}

/// Checks `password` against `hash` with the configured algorithm.
pub fn verify_password(password: &str, hash: &str, algorithm: &Algorithm) -> (res: bool)
    ensures
        res == password_matches(*algorithm, password@, hash@),
{
    match algorithm {
        Algorithm::BCrypt => match bcrypt_verify(password, hash) {
            Some(ok) => ok,
            None => false,
        },
        Algorithm::Argon2 => argon2_verify(password.as_bytes(), hash),
    }
}

/// Reads the user name and password of an `Authorization` header value.
pub fn basic_credentials_of(header: Option<&[u8]>) -> (res: Result<(String, String), String>)
    ensures
        match basic_credentials(header_view(header)) {
            Ok((user, password)) => res is Ok && res->Ok_0.0@ == user && res->Ok_0.1@ == password,
            Err(message) => res is Err && res->Err_0@ == message,
        },
{
    let value = match header {
        None => {
            return Err("Missing Authorization header".to_owned());
        },
        Some(v) => v,
    };
    let mut i: usize = 0;
    while i < value.len()
        invariant
            i <= value@.len(),
            header_view(header) == Some(value@),
            forall|j: int| 0 <= j < i ==> crate::text::is_visible_ascii(#[trigger] value@[j]),
        decreases value@.len() - i,
    {
        let b = value[i];
        if !((32 <= b && b < 127) || b == 9) {
            proof {
                assert(!crate::text::is_visible_ascii(value@[i as int]));
            }
            return Err("Invalid Authorization header".to_owned());
        }
        i = i + 1;
    }
    let scheme: [u8; 6] = [66u8, 97u8, 115u8, 105u8, 99u8, 32u8];
    let mut k: usize = 0;
    let mut is_basic = value.len() >= 6;
    while is_basic && k < 6
        invariant
            k <= 6,
            header_view(header) == Some(value@),
            visible_ascii(value@),
            is_basic ==> value@.len() >= 6,
            is_basic ==> forall|j: int| 0 <= j < k ==> value@[j] == basic_scheme()[j],
            !is_basic ==> !(value@.len() >= 6 && value@.take(6) == basic_scheme()),
            scheme@ == basic_scheme(),
        decreases 6 - k + (if is_basic { 1int } else { 0int }),
    {
        if value[k] != scheme[k] {
            is_basic = false;
            proof {
                if value@.len() >= 6 && value@.take(6) == basic_scheme() {
                    assert(value@.take(6)[k as int] == value@[k as int]);
                }
            }
        } else {
            k = k + 1;
        }
    }
    if !is_basic {
        return Err("Expected basic authentication".to_owned());
    }
    proof {
        assert(value@.take(6) =~= basic_scheme());
    }
    let encoded = vstd::slice::slice_subrange(value, 6, value.len());
    proof {
        assert(encoded@ =~= value@.skip(6));
    }
    let raw = match base64_decode(encoded) {
        Ok(raw) => raw,
        Err(e) => {
            return Err("Could not decode header: ".to_owned().concat(e.as_str()));
        },
    };
    let text = match utf8_text(raw) {
        Some(text) => text,
        None => {
            return Err("Invalid Authorization header".to_owned());
        },
    };
    match split_once_char(text.as_str(), ':') {
        Some(pair) => Ok(pair),
        None => Err("Invalid credentials".to_owned()),
    }
}

/// Basic authentication against a table of users and password hashes.
#[derive(Clone)]
pub struct BasicAuth {
    config: BasicAuthConfig,
}

impl BasicAuth {
    /// Creates a basic authentication from its configuration.
    pub fn new(config: BasicAuthConfig) -> (res: Self)
        ensures
            res.config() == config,
    {
        BasicAuth { config }
    }

    /// A copy of this authentication.
    pub fn duplicate(&self) -> (res: Self)
        ensures
            res.config()@ == self.config()@,
    {
        BasicAuth { config: self.config.duplicate() }
    }

    /// The configuration of this authentication.
    pub closed spec fn config(self) -> BasicAuthConfig {
        self.config
    }
}

impl Auth for BasicAuth {
    /// Authenticates a request by its `Authorization` header value (`None` when the
    /// request has none): `Ok(true)` when it names a known user with the right
    /// password, `Ok(false)` for an unknown user or a wrong password, and an error
    /// for a header that is missing or not basic credentials.
    fn authenticate(&self, authorization: Option<&[u8]>) -> (res: Result<bool, VetisError>)
        ensures
            reports_outcome(res, basic_auth_outcome(self.config()@, header_view(authorization))),
    {
        let (user, password) = match basic_credentials_of(authorization) {
            Ok(pair) => pair,
            Err(message) => {
                return Err(VetisError::VirtualHost(VirtualHostError::Auth(message)));
            },
        };
        match self.config.user_hash(user.as_str()) {
            Some(hash) => Ok(verify_password(password.as_str(), hash.as_str(), self.config.algorithm())),
            None => Ok(false),
        }
    }
}


/// A request without an `Authorization` header is refused, whatever the users.
pub proof fn law_missing_header_refused(settings: BasicAuthSettings)
    ensures
        basic_auth_outcome(settings, None) == Err::<bool, Seq<char>>("Missing Authorization header"@),
{
}

/// Credentials of a user that is not in the table never authenticate.
pub proof fn law_unknown_user_not_authenticated(settings: BasicAuthSettings, header: Option<Seq<u8>>)
    requires
        basic_credentials(header) is Ok,
        !settings.users.contains_key(basic_credentials(header)->Ok_0.0),
    ensures
        basic_auth_outcome(settings, header) == Ok::<bool, Seq<char>>(false),
{
}

/// Credentials of a known user authenticate exactly when the password matches the
/// user's hash under the configured algorithm.
pub proof fn law_known_user_needs_matching_password(settings: BasicAuthSettings, header: Option<Seq<u8>>)
    requires
        basic_credentials(header) is Ok,
        settings.users.contains_key(basic_credentials(header)->Ok_0.0),
    ensures
        basic_auth_outcome(settings, header) == Ok::<bool, Seq<char>>(
            password_matches(
                settings.algorithm,
                basic_credentials(header)->Ok_0.1,
                settings.users[basic_credentials(header)->Ok_0.0],
            ),
        ),
{
}


/// A known user's credentials authenticate, under Argon2, exactly when Argon2 accepts
/// the UTF-8 bytes of the password for the user's PHC string, and under bcrypt exactly
/// when bcrypt verifies the password against the user's hash.
pub proof fn law_password_checked_by_configured_algorithm(
    settings: BasicAuthSettings,
    header: Option<Seq<u8>>,
)
    requires
        basic_credentials(header) is Ok,
        settings.users.contains_key(basic_credentials(header)->Ok_0.0),
    ensures
        ({
            let password = basic_credentials(header)->Ok_0.1;
            let hash = settings.users[basic_credentials(header)->Ok_0.0];
            &&& settings.algorithm == Algorithm::Argon2 ==> basic_auth_outcome(settings, header)
                == Ok::<bool, Seq<char>>(argon2_accepts(encode_utf8(password), hash))
            &&& settings.algorithm == Algorithm::BCrypt ==> basic_auth_outcome(settings, header)
                == Ok::<bool, Seq<char>>(bcrypt_verify_result(password, hash) == Some(true))
        }),
{
}

/// `verify_password`'s answer, for every password and hash: under Argon2 whether
/// Argon2 accepts the password's UTF-8 bytes for the hash; under bcrypt whether bcrypt
/// verifies it, a hash it cannot use matching nothing.
pub proof fn law_verify_password_by_algorithm(password: Seq<char>, hash: Seq<char>)
    ensures
        password_matches(Algorithm::Argon2, password, hash) == argon2_accepts(
            encode_utf8(password),
            hash,
        ),
        password_matches(Algorithm::BCrypt, password, hash) == (bcrypt_verify_result(
            password,
            hash,
        ) == Some(true)),
{
}

} // verus!

//! Passwords, sessions and the redirect to the login page.
use crate::db::users::{User, UserLookup};
use crate::forms::users::{create_user_entries, password_entries, CreateUser};
use crate::validation::{length_error, username_entries};
use crate::ids::Uuid;
use crate::response_error::{is_anyhow, ResponseError, ResponseResult};
use crate::text::concat2;
use vstd::prelude::*;
use vstd::utf8::encode_utf8;

verus! {

broadcast use vstd::string::group_string_axioms;

/// `None` when `argon2::PasswordHash::new` accepts `s` as a password hash
/// string, otherwise the message of its error.
pub uninterp spec fn password_hash_parse(s: Seq<char>) -> Option<Seq<char>>;

/// `argon2::Argon2::default().verify_password` accepts `password` (as UTF-8
/// bytes) against the parsed password hash string `hash`.
pub uninterp spec fn argon2_accepts(password: Seq<char>, hash: Seq<char>) -> bool;

/// Calls `argon2::PasswordHash::new`; the outcome is tied to `password_hash_parse`.
#[verifier::external_body]
fn parse_password_hash(hash: &str) -> (r: Option<String>)
    ensures
        match r {
            Some(m) => password_hash_parse(hash@) == Some(m@),
            None => password_hash_parse(hash@) is None,
        },
{
    argon2::PasswordHash::new(hash).err().map(|e| e.to_string())
}

/// Parses `hash` and calls `argon2::Argon2::default().verify_password` with
/// the bytes of `password`; the outcome is tied to `argon2_accepts`.
#[verifier::external_body]
fn argon2_verify(password: &str, hash: &str) -> (r: bool)
    requires
        password_hash_parse(hash@) is None,
    ensures
        r == argon2_accepts(password@, hash@),
{
    match argon2::PasswordHash::new(hash) {
        Ok(h) => argon2::PasswordVerifier::verify_password(
            &argon2::Argon2::default(),
            password.as_bytes(),
            &h,
        ).is_ok(),
        Err(_) => false,
    }
}

/// Hashes the bytes of `password` with `argon2::Argon2::default()` and a
/// random salt from the operating system, and serializes the hash. The salt
/// is random, so the hash is not stated; the argon2 documentation shows that
/// such a hash parses with `PasswordHash::new` and that `verify_password`
/// accepts the same password against it, which the contract states. With
/// the default parameters and a generated 16-byte salt, the only failure
/// that argon2's `hash_password` can report is a password longer than its
/// `MAX_PWD_LEN` (0xFFFFFFFF bytes); the contract states that shorter
/// passwords are hashed. A failure is returned with its message.
#[verifier::external_body]
fn argon2_hash(password: &str) -> (r: Result<String, String>)
    ensures
        r matches Ok(h) ==> password_hash_parse(h@) is None && argon2_accepts(password@, h@),
        encode_utf8(password@).len() <= 0xFFFF_FFFF ==> r is Ok,
{
    let salt = argon2::password_hash::SaltString::generate(
        &mut argon2::password_hash::rand_core::OsRng,
    );
    argon2::PasswordHasher::hash_password(&argon2::Argon2::default(), password.as_bytes(), &salt)
        .map(|h| h.to_string())
        .map_err(|e| e.to_string())
}

pub open spec fn hash_failure_prefix() -> Seq<char> {
    "Failed to hash password: "@
}

pub open spec fn no_password_message() -> Seq<char> {
    "User has no password set"@
}

pub open spec fn bad_hash_prefix() -> Seq<char> {
    "Failed to create password hash: "@
}

/// `hash` is a hash of `password` as `hash_password` produces them.
pub open spec fn hashes(password: Seq<char>, hash: Seq<char>) -> bool {
    password_hash_parse(hash) is None && argon2_accepts(password, hash)
}

/// Hashes a new password for storage. Every password of at most 0xFFFFFFFF
/// bytes (argon2's limit) is hashed.
pub fn hash_password(password: &String) -> (r: ResponseResult<String>)
    ensures
        r matches Ok(h) ==> hashes(password@, h@),
        encode_utf8(password@).len() <= 0xFFFF_FFFF ==> r is Ok,
        r matches Err(e) ==> e matches ResponseError::Anyhow(m) && hash_failure_prefix().is_prefix_of(
            m@,
        ),
{
    match argon2_hash(password.as_str()) {
        Ok(h) => Ok(h),
        Err(e) => {
            proof {
                reveal_strlit("Failed to hash password: ");
            }
            let m = concat2("Failed to hash password: ", e.as_str());
            assert(hash_failure_prefix().is_prefix_of(m@)) by {
                assert(m@.subrange(0, hash_failure_prefix().len() as int) =~= hash_failure_prefix());
            }
            Err(ResponseError::Anyhow(m))
        },
    }
}

/// Every password that the sign-up form accepts (10 to 100 bytes) is within
/// argon2's limit, so `hash_password` hashes it: signing up never fails for
/// want of a hash.
pub proof fn lemma_signup_password_hashable(u: CreateUser)
    requires
        create_user_entries(u).len() == 0,
    ensures
        10 <= encode_utf8(u.password@).len() <= 100,
        encode_utf8(u.password@).len() <= 0xFFFF_FFFF,
{
    let pe = password_entries("password"@, u.password@);
    assert(create_user_entries(u).len() == pe.len() + username_entries(
        "username"@,
        u.username@,
    ).len());
    assert(pe.len() == 0);
    assert(length_error(u.password@, 10, 100) is None);
}

/// The outcome of checking `password` against a stored hash: a user without
/// a password cannot log in with one; a stored hash that does not parse is an
/// internal error; otherwise the password is accepted exactly when argon2
/// verifies it.
pub open spec fn spec_verify_password(stored: Option<Seq<char>>, password: Seq<char>) -> Result<
    (),
    Seq<char>,
> {
    match stored {
        None => Err(no_password_message()),
        Some(h) => match password_hash_parse(h) {
            Some(e) => Err(bad_hash_prefix() + e),
            None => if argon2_accepts(password, h) {
                Ok(())
            } else {
                Err(Seq::empty())
            },
        },
    }
}

/// `r` is the result that `spec_verify_password` describes; an empty
/// message stands for `NotAuthenticated`.
pub open spec fn verify_outcome(expected: Result<(), Seq<char>>, r: ResponseResult<()>) -> bool {
    match expected {
        Ok(()) => r is Ok,
        Err(m) => if m.len() == 0 {
            r matches Err(ResponseError::NotAuthenticated)
        } else {
            is_anyhow(r, m)
        },
    }
}

pub open spec fn stored_hash(user: User) -> Option<Seq<char>> {
    match user.password_hash {
        Some(h) => Some(h@),
        None => None,
    }
}

/// Checks a login password against the user's stored hash.
pub fn verify_password(user: &User, password: &str) -> (r: ResponseResult<()>)
    ensures
        verify_outcome(spec_verify_password(stored_hash(*user), password@), r),
{
    proof {
        reveal_strlit("User has no password set");
        reveal_strlit("Failed to create password hash: ");
    }
    let existing_hash = match &user.password_hash {
        Some(h) => h,
        None => {
            return Err(ResponseError::Anyhow("User has no password set".to_string()));
        },
    };
    match parse_password_hash(existing_hash.as_str()) {
        Some(e) => {
            return Err(
                ResponseError::Anyhow(concat2("Failed to create password hash: ", e.as_str())),
            );
        },
        None => {},
    }
    if !argon2_verify(password, existing_hash.as_str()) {
        return Err(ResponseError::NotAuthenticated);
    }
    Ok(())
}

/// A password that was stored with `hash_password` is accepted at login.
pub proof fn lemma_login_with_registered_password(password: Seq<char>, hash: Seq<char>)
    requires
        hashes(password, hash),
    ensures
        spec_verify_password(Some(hash), password) == Ok::<(), Seq<char>>(()),
{
}

/// `true` for the bytes of ASCII letters and digits, which are kept as they are.
pub open spec fn is_ascii_alphanumeric_byte(b: u8) -> bool {
    (48 <= b <= 57) || (65 <= b <= 90) || (97 <= b <= 122)
}

/// Upper-case hexadecimal digit for `n` in `0..16`.
pub open spec fn hex_upper(n: int) -> char {
    if n < 10 {
        (48 + n) as char
    } else {
        (55 + n) as char
    }
}

pub open spec fn encode_byte(b: u8) -> Seq<char> {
    if is_ascii_alphanumeric_byte(b) {
        seq![b as char]
    } else {
        seq!['%', hex_upper(b as int / 16), hex_upper(b as int % 16)]
    }
}

/// Percent-encoding of a byte string that keeps only ASCII letters and digits.
pub open spec fn percent_encoded(bytes: Seq<u8>) -> Seq<char>
    decreases bytes.len(),
{
    if bytes.len() == 0 {
        Seq::empty()
    } else {
        percent_encoded(bytes.drop_last()) + encode_byte(bytes.last())
    }
}

/// Calls `percent_encoding::utf8_percent_encode` with the set
/// `NON_ALPHANUMERIC`, which replaces every byte of the UTF-8 encoding other
/// than an ASCII letter or digit by `%` and two upper-case hexadecimal digits.
#[verifier::external_body]
fn encode_non_alphanumeric(s: &str) -> (r: String)
    ensures
        r@ == percent_encoded(encode_utf8(s@)),
{
    percent_encoding::utf8_percent_encode(s, percent_encoding::NON_ALPHANUMERIC).to_string()
}

pub open spec fn login_redirect_prefix() -> Seq<char> {
    "/login?previous_uri="@
}

/// The login page, remembering the page that was asked for (its path and
/// query; nothing when there is none).
pub fn login_redirect(path_and_query: Option<&str>) -> (r: String)
    ensures
        r@ == login_redirect_prefix() + percent_encoded(
            encode_utf8(
                match path_and_query {
                    Some(p) => p@,
                    None => Seq::empty(),
                },
            ),
        ),
{
    let redirect_after_login = match path_and_query {
        Some(pq) => pq,
        None => "",
    };
    proof {
        reveal_strlit("");
    }
    let encoded = encode_non_alphanumeric(redirect_after_login);
    concat2("/login?previous_uri=", encoded.as_str())
}

/// Characters that the percent-encoding produces.
pub open spec fn is_encoded_char(c: char) -> bool {
    ('0' <= c && c <= '9') || ('A' <= c && c <= 'Z') || ('a' <= c && c <= 'z') || c == '%'
}

/// The encoded page never holds a character that could end the query
/// parameter or start another one.
pub proof fn lemma_percent_encoded_chars(bytes: Seq<u8>)
    ensures
        forall|i: int|
            0 <= i < percent_encoded(bytes).len() ==> is_encoded_char(
                #[trigger] percent_encoded(bytes)[i],
            ),
    decreases bytes.len(),
{
    if bytes.len() > 0 {
        lemma_percent_encoded_chars(bytes.drop_last());
        let b = bytes.last();
        let prev = percent_encoded(bytes.drop_last());
        let e = encode_byte(b);
        assert forall|i: int| 0 <= i < e.len() implies is_encoded_char(#[trigger] e[i]) by {
            if !is_ascii_alphanumeric_byte(b) && i > 0 {
                let n: int = if i == 1 { b as int / 16 } else { b as int % 16 };
                assert(0 <= n < 16);
            }
        }
        assert forall|i: int| 0 <= i < percent_encoded(bytes).len() implies is_encoded_char(
            #[trigger] percent_encoded(bytes)[i],
        ) by {
            if i < prev.len() {
                assert(percent_encoded(bytes)[i] == prev[i]);
            } else {
                assert(percent_encoded(bytes)[i] == e[i - prev.len()]);
            }
        }
    }
}

/// The authenticated user's id as the session holds it: a failed session
/// lookup is an internal error, an absent id means nobody is logged in.
pub fn user_id_from_session(stored: Result<Option<Uuid>, String>) -> (r: ResponseResult<Uuid>)
    ensures
        stored matches Ok(Some(id)) ==> r == Ok::<Uuid, ResponseError>(id),
        stored matches Ok(None) ==> r matches Err(ResponseError::NotAuthenticated),
        stored is Err ==> is_anyhow(r, "Failed to load authenticated user id"@),
{
    match stored {
        Ok(Some(id)) => Ok(id),
        Ok(None) => Err(ResponseError::NotAuthenticated),
        Err(_) => Err(ResponseError::Anyhow("Failed to load authenticated user id".to_string())),
    }
}

/// For pages that also serve visitors: not being logged in is no error.
pub fn optional_user_id(r: ResponseResult<Uuid>) -> (o: ResponseResult<Option<Uuid>>)
    ensures
        r matches Ok(id) ==> o == Ok::<Option<Uuid>, ResponseError>(Some(id)),
        r matches Err(ResponseError::NotAuthenticated) ==> o == Ok::<
            Option<Uuid>,
            ResponseError,
        >(None),
        r is Err && !(r->Err_0 is NotAuthenticated) ==> o is Err && o->Err_0 == r->Err_0,
{
    match r {
        Ok(id) => Ok(Some(id)),
        Err(ResponseError::NotAuthenticated) => Ok(None),
        Err(e) => Err(e),
    }
}

/// For a single sign-on login: a known account is used, an unknown one is
/// created, and a failed lookup becomes an internal error.
pub fn create_and_login_oidc_user(lookup: ResponseResult<User>) -> (r: UserLookup)
    ensures
        lookup matches Ok(u) ==> r == UserLookup::Existing(u),
        lookup matches Err(ResponseError::NotFound) ==> r is Create,
        lookup is Err && !(lookup->Err_0 is NotFound) ==> (r matches UserLookup::Failed(
            ResponseError::Anyhow(m),
        ) && m@ == "Failed to look up user by OIDC id"@),
{
    match lookup {
        Ok(user) => UserLookup::Existing(user),
        Err(ResponseError::NotFound) => UserLookup::Create,
        Err(_) => UserLookup::Failed(
            ResponseError::Anyhow("Failed to look up user by OIDC id".to_string()),
        ),
    }
}

} // verus!

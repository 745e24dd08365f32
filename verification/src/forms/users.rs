use crate::validation::{
    check_length, check_username, entry, finish, length_error, outcome, record, username_entries,
    Report,
};
use vstd::prelude::*;

verus! {

/// Sign-up data: `username` (ascii, alphanumeric, 3 to 50 bytes) and
/// `password` (10 to 100 bytes).
#[derive(Debug)]
pub struct CreateUser {
    pub username: String,
    pub password: String,
}

pub open spec fn password_entries(path: Seq<char>, s: Seq<char>) -> Seq<(Seq<char>, Seq<char>)> {
    entry(path, length_error(s, 10, 100))
}

pub open spec fn create_user_entries(u: CreateUser) -> Seq<(Seq<char>, Seq<char>)> {
    password_entries("password"@, u.password@) + username_entries("username"@, u.username@)
}

impl CreateUser {
    pub fn validate(&self) -> (r: Result<(), Report>)
        ensures
            outcome(create_user_entries(*self), r),
    {
        let mut report = Report::new();
        record(&mut report, "password", check_length(self.password.as_str(), 10, 100));
        check_username(&mut report, "username", self.username.as_str());
        assert(report@ =~= create_user_entries(*self));
        finish(report)
    }
}

#[derive(Debug)]
pub struct OidcSelectUsername {
    pub username: String,
}

impl OidcSelectUsername {
    pub fn validate(&self) -> (r: Result<(), Report>)
        ensures
            outcome(username_entries("username"@, self.username@), r),
    {
        let mut report = Report::new();
        check_username(&mut report, "username", self.username.as_str());
        assert(report@ =~= username_entries("username"@, self.username@));
        finish(report)
    }
}

#[derive(Debug)]
pub struct Credentials {
    pub username: String,
    pub password: String,
}

pub open spec fn credentials_entries(
    prefix: Seq<char>,
    c: Credentials,
) -> Seq<(Seq<char>, Seq<char>)> {
    password_entries(prefix + "password"@, c.password@) + username_entries(
        prefix + "username"@,
        c.username@,
    )
}

impl Credentials {
    pub fn validate(&self) -> (r: Result<(), Report>)
        ensures
            outcome(credentials_entries(Seq::empty(), *self), r),
    {
        let mut report = Report::new();
        record(&mut report, "password", check_length(self.password.as_str(), 10, 100));
        check_username(&mut report, "username", self.username.as_str());
        assert(Seq::<char>::empty() + "password"@ =~= "password"@);
        assert(Seq::<char>::empty() + "username"@ =~= "username"@);
        assert(report@ =~= credentials_entries(Seq::empty(), *self));
        finish(report)
    }
}

/// The login form: the credentials (validated under the path
/// `credentials.`) and where to go after logging in.
#[derive(Debug)]
pub struct Login {
    pub previous_uri: Option<String>,
    pub credentials: Credentials,
}

impl Login {
    pub fn validate(&self) -> (r: Result<(), Report>)
        ensures
            outcome(
                password_entries("credentials.password"@, self.credentials.password@)
                    + username_entries("credentials.username"@, self.credentials.username@),
                r,
            ),
    {
        let mut report = Report::new();
        record(
            &mut report,
            "credentials.password",
            check_length(self.credentials.password.as_str(), 10, 100),
        );
        check_username(&mut report, "credentials.username", self.credentials.username.as_str());
        assert(report@ =~= password_entries(
            "credentials.password"@,
            self.credentials.password@,
        ) + username_entries("credentials.username"@, self.credentials.username@));
        finish(report)
    }
}

/// The query of the redirect back from the identity provider.
#[derive(Debug)]
pub struct OidcLoginQuery {
    pub code: String,
    pub state: String,
}

/// A user who signs in through an identity provider: `email` and `oidc_id`
/// of at most 500 bytes, and a user name.
#[derive(Debug)]
pub struct CreateOidcUser {
    pub oidc_id: String,
    pub email: String,
    pub username: String,
}

pub open spec fn create_oidc_user_entries(u: CreateOidcUser) -> Seq<(Seq<char>, Seq<char>)> {
    entry("email"@, length_error(u.email@, 0, 500)) + entry(
        "oidc_id"@,
        length_error(u.oidc_id@, 0, 500),
    ) + username_entries("username"@, u.username@)
}

impl CreateOidcUser {
    pub fn validate(&self) -> (r: Result<(), Report>)
        ensures
            outcome(create_oidc_user_entries(*self), r),
    {
        let mut report = Report::new();
        record(&mut report, "email", check_length(self.email.as_str(), 0, 500));
        record(&mut report, "oidc_id", check_length(self.oidc_id.as_str(), 0, 500));
        check_username(&mut report, "username", self.username.as_str());
        assert(report@ =~= create_oidc_user_entries(*self));
        finish(report)
    }
}

} // verus!

//! Single sign-on with OpenID Connect: the checks on the provider's answer.
use crate::response_error::{is_anyhow, ResponseError, ResponseResult};
use crate::db::run_migrations::bytes_eq;
use vstd::prelude::*;

verus! {

broadcast use vstd::string::group_string_axioms;

/// Who the identity provider says logged in.
#[derive(Debug)]
pub struct AuthenticatedOidcUserInfo {
    pub oidc_id: String,
    pub email: String,
}

/// A login in progress: the secrets sent to the provider and where the user
/// was sent to authorize.
#[derive(Debug)]
pub struct LoginAttempt {
    pub nonce: String,
    pub csrf_token: String,
    pub pkce_verifier: String,
    pub authorize_url: String,
}

impl LoginAttempt {
    /// The provider must send back the CSRF token of this attempt.
    pub fn check_csrf_token(&self, csrf_token: &str) -> (r: ResponseResult<()>)
        ensures
            r is Ok <==> csrf_token@ == self.csrf_token@,
            r is Err ==> is_anyhow(r, "CSRF token mismatch"@),
    {
        let given = csrf_token.to_string();
        if !given.eq(&self.csrf_token) {
            return Err(ResponseError::Anyhow("CSRF token mismatch".to_string()));
        }
        Ok(())
    }
}

/// The hash of the access token must be the one that the ID token claims.
pub fn check_access_token_hash(expected: &Vec<u8>, actual: &Vec<u8>) -> (r: ResponseResult<()>)
    ensures
        r is Ok <==> expected@ == actual@,
        r is Err ==> is_anyhow(r, "Invalid access token"@),
{
    if !bytes_eq(actual, expected) {
        return Err(ResponseError::Anyhow("Invalid access token".to_string()));
    }
    Ok(())
}

/// The logged-in user from the ID token's subject and email; the email is required.
pub fn user_info(subject: String, email: Option<String>) -> (r: ResponseResult<
    AuthenticatedOidcUserInfo,
>)
    ensures
        email is None ==> is_anyhow(r, "failed to get email"@),
        email matches Some(e) ==> r matches Ok(info) && info.oidc_id@ == subject@ && info.email@
            == e@,
{
    match email {
        Some(email) => Ok(AuthenticatedOidcUserInfo { oidc_id: subject, email }),
        None => Err(ResponseError::Anyhow("failed to get email".to_string())),
    }
}

/// What the ID token says of the access token: no hash claimed, or the
/// claimed hash together with the hash computed from the access token (or,
/// when it could not be computed, the message saying why).
#[derive(Debug)]
pub enum AccessTokenClaim {
    NotClaimed,
    Claimed { expected: Vec<u8>, actual: Result<Vec<u8>, String> },
}

/// No access token hash is claimed, or the claimed one is the computed one.
pub open spec fn claim_holds(claim: AccessTokenClaim) -> bool {
    match claim {
        AccessTokenClaim::NotClaimed => true,
        AccessTokenClaim::Claimed { expected, actual } => match actual {
            Ok(h) => expected@ == h@,
            Err(_) => false,
        },
    }
}

/// What the checks on verified ID token claims give: a claimed access token
/// hash must be computable and equal the computed one; then the user is
/// taken from the token's subject and its email, which is required.
pub open spec fn id_token_outcome(
    claim: AccessTokenClaim,
    subject: String,
    email: Option<String>,
    r: ResponseResult<AuthenticatedOidcUserInfo>,
) -> bool {
    &&& claim matches AccessTokenClaim::Claimed { actual: Err(m), .. } ==> is_anyhow(r, m@)
    &&& claim matches AccessTokenClaim::Claimed { expected, actual: Ok(h) } ==> (expected@
        != h@ ==> is_anyhow(r, "Invalid access token"@))
    &&& claim_holds(claim) ==> {
        &&& email is None ==> is_anyhow(r, "failed to get email"@)
        &&& email matches Some(e) ==> (r matches Ok(info) && info.oidc_id@ == subject@
            && info.email@ == e@)
    }
}

/// The checks after the ID token's claims were verified, in order: see
/// `id_token_outcome`.
pub fn user_from_id_token(
    claim: AccessTokenClaim,
    subject: String,
    email: Option<String>,
) -> (r: ResponseResult<AuthenticatedOidcUserInfo>)
    ensures
        id_token_outcome(claim, subject, email, r),
{
    match claim {
        AccessTokenClaim::NotClaimed => {},
        AccessTokenClaim::Claimed { expected, actual } => {
            let actual = match actual {
                Ok(h) => h,
                Err(m) => {
                    return Err(ResponseError::Anyhow(m));
                },
            };
            check_access_token_hash(&expected, &actual)?;
        },
    }
    user_info(subject, email)
}

/// The claims of an ID token whose signature and nonce were verified.
#[derive(Debug)]
pub struct IdTokenClaims {
    pub subject: String,
    pub email: Option<String>,
    pub access_token: AccessTokenClaim,
}

/// How the provider answered the exchange of the authorization code (sent
/// with this attempt's PKCE verifier), and how the returned ID token fared
/// when its claims were checked against this attempt's nonce.
#[derive(Debug)]
pub enum ProviderAnswer {
    /// The code could not be set on the exchange request.
    ExchangeCodeRejected,
    /// The token request failed.
    NoTokenResponse,
    /// The token response holds no ID token.
    NoIdToken,
    /// The ID token's claims failed verification.
    ClaimsRejected,
    /// The verified claims.
    Verified(IdTokenClaims),
}

/// The outcome of a login, from the provider's answer after the CSRF check
/// (`LoginAttempt::check_csrf_token`) passed: each failed step is an internal
/// error with its own message; verified claims go through
/// `user_from_id_token`.
pub fn user_from_provider_answer(answer: ProviderAnswer) -> (r: ResponseResult<
    AuthenticatedOidcUserInfo,
>)
    ensures
        answer is ExchangeCodeRejected ==> is_anyhow(r, "Failed to set exchange code"@),
        answer is NoTokenResponse ==> is_anyhow(r, "failed to get token response"@),
        answer is NoIdToken ==> is_anyhow(r, "Server did not return an ID token"@),
        answer is ClaimsRejected ==> is_anyhow(r, "failed to get token claims"@),
        answer matches ProviderAnswer::Verified(c) ==> id_token_outcome(
            c.access_token,
            c.subject,
            c.email,
            r,
        ),
{
    proof {
        reveal_strlit("Failed to set exchange code");
        reveal_strlit("failed to get token response");
        reveal_strlit("Server did not return an ID token");
        reveal_strlit("failed to get token claims");
    }
    match answer {
        ProviderAnswer::ExchangeCodeRejected => Err(
            ResponseError::Anyhow("Failed to set exchange code".to_string()),
        ),
        ProviderAnswer::NoTokenResponse => Err(
            ResponseError::Anyhow("failed to get token response".to_string()),
        ),
        ProviderAnswer::NoIdToken => Err(
            ResponseError::Anyhow("Server did not return an ID token".to_string()),
        ),
        ProviderAnswer::ClaimsRejected => Err(
            ResponseError::Anyhow("failed to get token claims".to_string()),
        ),
        ProviderAnswer::Verified(c) => user_from_id_token(c.access_token, c.subject, c.email),
    }
}

} // verus!

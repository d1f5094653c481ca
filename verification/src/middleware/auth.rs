use crate::services::auth_service::{token_verdict, AuthService, Claims, ClaimsView};
use crate::models::common::DateTimeString;
use crate::trusted::clock::{clock_reading, utc_now};
use crate::trusted::text::strip_prefix;
use crate::utils::error::{outcome, AppError, AuthError, Failure};
use crate::utils::text::same_text;
use vstd::prelude::*;

verus! {

/// What every guard is configured with: the secret that session tokens are
/// signed with, and the shared token of the public endpoints.
pub struct AuthState {
    pub secret: String,
    pub bearer_token: String,
}

/// Proof that a request carried the shared token. It says nothing of who
/// the caller is.
#[derive(Debug, PartialEq, Eq)]
pub struct BearerToken;

/// The characters of an `Authorization` header, where the request has one.
pub open spec fn header_text(authorization: Option<&str>) -> Option<Seq<char>> {
    match authorization {
        Some(text) => Some(text@),
        None => None,
    }
}

/// The secret of a configuration, where there is one.
pub open spec fn secret_text(state: Option<&AuthState>) -> Option<Seq<char>> {
    match state {
        Some(state) => Some(state.secret@),
        None => None,
    }
}

/// The shared token of a configuration, where there is one.
pub open spec fn shared_text(state: Option<&AuthState>) -> Option<Seq<char>> {
    match state {
        Some(state) => Some(state.bearer_token@),
        None => None,
    }
}

/// The token that an `Authorization` header carries: what follows the word
/// `Bearer` and one space. No header is `MissingToken`; a header of any
/// other form is `InvalidToken`.
pub open spec fn bearer_part(authorization: Option<Seq<char>>) -> Result<Seq<char>, AuthError> {
    match authorization {
        None => Err(AuthError::MissingToken),
        Some(header) => if "Bearer "@.is_prefix_of(header) {
            Ok(header.skip("Bearer "@.len() as int))
        } else {
            Err(AuthError::InvalidToken)
        },
    }
}

/// What the static bearer check comes to. A missing configuration is the
/// server's fault and comes first; then the header; then the comparison
/// with the shared token.
pub open spec fn shared_token_verdict(
    shared: Option<Seq<char>>,
    authorization: Option<Seq<char>>,
) -> Result<(), Failure> {
    match shared {
        None => Err(Failure::Internal),
        Some(expected) => match bearer_part(authorization) {
            Err(cause) => Err(Failure::Auth(cause)),
            Ok(token) => if token == expected {
                Ok(())
            } else {
                Err(Failure::Auth(AuthError::InvalidToken))
            },
        },
    }
}

/// What authenticating a request at the second `now` comes to: the claims
/// of the token in its header. A missing configuration comes first; then
/// the header; then the token's signature, form and expiry.
pub open spec fn principal(
    secret: Option<Seq<char>>,
    authorization: Option<Seq<char>>,
    now: i64,
) -> Result<ClaimsView, Failure> {
    match secret {
        None => Err(Failure::Internal),
        Some(secret) => match bearer_part(authorization) {
            Err(cause) => Err(Failure::Auth(cause)),
            Ok(token) => match token_verdict(token, secret, now) {
                Ok(claims) => Ok(claims),
                Err(cause) => Err(Failure::Auth(cause)),
            },
        },
    }
}

/// Takes the token out of an `Authorization` header.
pub fn bearer_token<'a>(authorization: Option<&'a str>) -> (result: Result<&'a str, AuthError>)
    ensures
        match result {
            Ok(token) => bearer_part(header_text(authorization)) == Ok::<Seq<char>, AuthError>(
                token@,
            ),
            Err(cause) => bearer_part(header_text(authorization)) == Err::<Seq<char>, AuthError>(
                cause,
            ),
        },
{
    match authorization {
        None => Err(AuthError::MissingToken),
        Some(header) => match strip_prefix(header, "Bearer ") {
            Some(token) => {
                assert(header@.skip("Bearer "@.len() as int) =~= token@);
                assert("Bearer "@.is_prefix_of(header@)) by {
                    assert(header@.subrange(0, "Bearer "@.len() as int) =~= "Bearer "@);
                }
                Ok(token)
            },
            None => Err(AuthError::InvalidToken),
        },
    }
}

impl BearerToken {
    /// The static bearer check of the public endpoints: the request must
    /// carry the shared token of the configuration, letter for letter.
    pub fn from_request_parts(state: Option<&AuthState>, authorization: Option<&str>) -> (result:
        Result<BearerToken, AppError>)
        ensures
            match shared_token_verdict(shared_text(state), header_text(authorization)) {
                Ok(_) => result is Ok,
                Err(failure) => result matches Err(error) && error@ == failure,
            },
    {
        match state {
            None => Err(AppError::Internal),
            Some(state) => match bearer_token(authorization) {
                Err(cause) => Err(AppError::Auth(cause)),
                Ok(token) => if same_text(token, state.bearer_token.as_str()) {
                    Ok(BearerToken)
                } else {
                    Err(AppError::Auth(AuthError::InvalidToken))
                },
            },
        }
    }
}

impl Claims {
    /// Authenticates a request at the second `now`: yields the claims of the
    /// session token in its `Authorization` header.
    pub fn from_request_parts_at(
        state: Option<&AuthState>,
        authorization: Option<&str>,
        now: i64,
    ) -> (result: Result<Claims, AppError>)
        ensures
            outcome(result) == principal(secret_text(state), header_text(authorization), now),
    {
        match state {
            None => Err(AppError::Internal),
            Some(state) => match bearer_token(authorization) {
                Err(cause) => Err(AppError::Auth(cause)),
                Ok(token) => AuthService::verify_token_at(token, state.secret.as_str(), now),
            },
        }
    }

    /// Authenticates a request at the present second, by the clock.
    pub fn from_request_parts(state: Option<&AuthState>, authorization: Option<&str>) -> (result:
        Result<Claims, AppError>)
        ensures
            exists|now: DateTimeString|
                clock_reading(now) && outcome(result) == #[trigger] principal(
                    secret_text(state),
                    header_text(authorization),
                    now.seconds,
                ),
    {
        let now = utc_now();
        let result = Self::from_request_parts_at(state, authorization, now.seconds);
        assert(clock_reading(now) && outcome(result) == principal(
            secret_text(state),
            header_text(authorization),
            now.seconds,
        ));
        result
    }
}

/// Whatever the clock shows, a request without a header is answered
/// `MissingToken`, one whose header carries no bearer token `InvalidToken`,
/// and one with no configuration behind it `Internal`; and claims come back
/// only from a token that carries the signature of the configured secret.
pub proof fn lemma_principal_needs_token(
    secret: Option<Seq<char>>,
    authorization: Option<Seq<char>>,
    now: i64,
)
    ensures
        secret is None ==> principal(secret, authorization, now) == Err::<ClaimsView, Failure>(
            Failure::Internal,
        ),
        secret is Some && authorization is None ==> principal(secret, authorization, now) == Err::<
            ClaimsView,
            Failure,
        >(Failure::Auth(AuthError::MissingToken)),
        secret is Some && authorization is Some && !"Bearer "@.is_prefix_of(authorization->0)
            ==> principal(secret, authorization, now) == Err::<ClaimsView, Failure>(
            Failure::Auth(AuthError::InvalidToken),
        ),
        principal(secret, authorization, now) is Ok ==> secret is Some && bearer_part(
            authorization,
        ) is Ok && token_verdict(bearer_part(authorization)->Ok_0, secret->0, now) is Ok,
{
}

} // verus!

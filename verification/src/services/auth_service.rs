pub mod claims;
pub mod flows;
pub mod requests;

pub use claims::{
    expiry, expiry_fits, issued, issued_claims, issuing, lasting, token_verdict, Claims,
    ClaimsView,
};
pub use flows::{
    enrolled, first_role, logged_in, login_verdict, refresh_verdict, refreshed, registered,
    registration_verdict, responded, resumed, AuthFlow, AuthStep,
};
pub use requests::{AuthResponse, LoginRequest, RegisterRequest};

use crate::db::{first_user, found_user, MemoryStore, Query, Reply, UserKey, UserKeyView};
use crate::enums::{UserRole, UserStatus};
use crate::models::common::DateTimeString;
use crate::models::users;
use crate::trusted::clock::{clock_reading, utc_now};
use crate::trusted::hasher::{argon2_accepts, argon2_hash, argon2_verify, hashable, phc_parses};
use crate::trusted::ids::fresh_uuid;
use crate::trusted::jwt::{jwt_open, jwt_sign};
use crate::utils::error::{outcome, outcome_of_flag, AppError, AuthError, Failure};
use vstd::prelude::*;

verus! {

/// What verifying `password` against the stored `hash` comes to: whether
/// the password is the one the hash was made from, or `Internal` where the
/// stored text is no hash at all.
pub open spec fn password_verdict(password: Seq<char>, hash: Seq<char>) -> Result<bool, Failure> {
    if phc_parses(hash) {
        Ok(argon2_accepts(password, hash))
    } else {
        Err(Failure::Internal)
    }
}

/// The credential hasher, the token codec and the three flows of an account:
/// registration, login and refresh.
pub struct AuthService;

impl AuthService {
    /// What a finished hashing means to the caller: the hash, or `Internal`
    /// whatever the hasher complained of.
    pub fn hash_outcome(hashed: Result<String, argon2::password_hash::Error>) -> (result: Result<
        String,
        AppError,
    >)
        ensures
            match hashed {
                Ok(hash) => result matches Ok(kept) && kept@ == hash@,
                Err(_) => result == Err::<String, AppError>(AppError::Internal),
            },
    {
        match hashed {
            Ok(hash) => Ok(hash),
            Err(_) => Err(AppError::Internal),
        }
    }

    /// Derives a salted, memory-hard hash of `password`, in PHC form. A hash
    /// comes back for every password that fits the hasher, the empty one
    /// too; it is not empty, and `password` verifies against it.
    pub fn hash_password(password: &str) -> (result: Result<String, AppError>)
        ensures
            hashable(password@) ==> result is Ok,
            result matches Ok(hash) ==> hash@.len() > 0 && password_verdict(password@, hash@)
                == Ok::<bool, Failure>(true),
            result matches Err(error) ==> error == AppError::Internal,
    {
        Self::hash_outcome(argon2_hash(password))
    }

    /// What a finished check of a password means to the caller: `Internal`
    /// where the stored text was no hash, else whether the hasher accepted
    /// the password. Every complaint of the hasher counts as a mismatch.
    pub fn verification_outcome(
        checked: Result<Result<(), argon2::password_hash::Error>, argon2::password_hash::Error>,
    ) -> (result: Result<bool, AppError>)
        ensures
            match checked {
                Ok(verdict) => result == Ok::<bool, AppError>(verdict.is_ok()),
                Err(_) => result == Err::<bool, AppError>(AppError::Internal),
            },
    {
        match checked {
            Ok(verdict) => Ok(verdict.is_ok()),
            Err(_) => Err(AppError::Internal),
        }
    }

    /// Tells whether `password` is the one that `hash` was made from. A
    /// stored text that is no hash is a failure, not a mismatch.
    pub fn verify_password(password: &str, hash: &str) -> (result: Result<bool, AppError>)
        ensures
            outcome_of_flag(result) == password_verdict(password@, hash@),
    {
        Self::verification_outcome(argon2_verify(password, hash))
    }

    /// What a finished signing means to the caller: the token, or `Internal`
    /// whatever the signer complained of.
    pub fn signing_outcome(signed: Result<String, jsonwebtoken::errors::Error>) -> (result: Result<
        String,
        AppError,
    >)
        ensures
            match signed {
                Ok(token) => result matches Ok(kept) && kept@ == token@,
                Err(_) => result == Err::<String, AppError>(AppError::Internal),
            },
    {
        match signed {
            Ok(token) => Ok(token),
            Err(_) => Err(AppError::Internal),
        }
    }

    /// The second at which a token issued at `now` for `minutes` minutes
    /// lapses, where that second can be written in 64 bits.
    pub fn expiry_at(now: i64, minutes: i64) -> (exp: Option<i64>)
        ensures
            match exp {
                Some(second) => second == expiry(now, minutes),
                None => expiry(now, minutes) < i64::MIN || expiry(now, minutes) > i64::MAX,
            },
    {
        let wide: i128 = now as i128 + 60 * (minutes as i128);
        if wide < i64::MIN as i128 || wide > i64::MAX as i128 {
            None
        } else {
            Some(wide as i64)
        }
    }

    /// Issues a token at the second `now` that states the given identity and
    /// lapses `expiration_minutes` minutes later. A token comes back exactly
    /// where the expiry can be written in 64 bits; else the result is
    /// `Internal`. The token verifies under `secret` to exactly these claims
    /// at every second up to its expiry, and as expired at every second
    /// after it; so one issued for a negative number of minutes is expired
    /// from the start.
    pub fn generate_token_at(
        user_id: u128,
        tenant_id: u128,
        email: String,
        role: UserRole,
        secret: &str,
        expiration_minutes: i64,
        now: i64,
    ) -> (result: Result<String, AppError>)
        ensures
            issuing(result, secret@, user_id, tenant_id, email@, role, expiration_minutes, now),
    {
        match Self::expiry_at(now, expiration_minutes) {
            None => Err(AppError::Internal),
            Some(exp) => {
                let claims = Claims { user_id, tenant_id, email, role, exp };
                let payload = claims.to_payload();
                Self::signing_outcome(jwt_sign(&payload, secret))
            },
        }
    }

    /// Issues a token that states the given identity and lapses
    /// `expiration_minutes` minutes from now, by the clock. What is said of
    /// [`AuthService::generate_token_at`] holds for the second that the
    /// clock showed.
    pub fn generate_token(
        user_id: u128,
        tenant_id: u128,
        email: String,
        role: UserRole,
        secret: &str,
        expiration_minutes: i64,
    ) -> (result: Result<String, AppError>)
        ensures
            lasting(expiration_minutes) ==> result is Ok,
            exists|now: DateTimeString|
                clock_reading(now) && #[trigger] issuing(
                    result,
                    secret@,
                    user_id,
                    tenant_id,
                    email@,
                    role,
                    expiration_minutes,
                    now.seconds,
                ),
    {
        let now = utc_now();
        let result = Self::generate_token_at(
            user_id,
            tenant_id,
            email,
            role,
            secret,
            expiration_minutes,
            now.seconds,
        );
        assert(clock_reading(now) && issuing(
            result,
            secret@,
            user_id,
            tenant_id,
            email@,
            role,
            expiration_minutes,
            now.seconds,
        ));
        result
    }

    /// Verifies `token` under `secret` at the second `now`: the signature
    /// first, then what the payload states, then the expiry.
    pub fn verify_token_at(token: &str, secret: &str, now: i64) -> (result: Result<
        Claims,
        AppError,
    >)
        ensures
            match token_verdict(token@, secret@, now) {
                Ok(claims) => result matches Ok(found) && found@ == claims,
                Err(cause) => result matches Err(error) && error == AppError::Auth(cause),
            },
    {
        match jwt_open(token, secret) {
            Err(_) => Err(AppError::Auth(AuthError::InvalidToken)),
            Ok(payload) => match Claims::from_payload(&payload) {
                None => Err(AppError::Auth(AuthError::InvalidToken)),
                Some(claims) => if claims.exp < now {
                    Err(AppError::Auth(AuthError::ExpiredToken))
                } else {
                    Ok(claims)
                },
            },
        }
    }

    /// Verifies `token` under `secret` at the present second, by the clock.
    /// Whatever the clock shows, a text that is no token signed with `secret`
    /// is refused as `InvalidToken`, and nothing but claims that the token
    /// states comes back.
    pub fn verify_token(token: &str, secret: &str) -> (result: Result<Claims, AppError>)
        ensures
            exists|now: DateTimeString|
                clock_reading(now) && match #[trigger] token_verdict(
                    token@,
                    secret@,
                    now.seconds,
                ) {
                    Ok(claims) => result matches Ok(found) && found@ == claims,
                    Err(cause) => result matches Err(error) && error == AppError::Auth(cause),
                },
    {
        let now = utc_now();
        let result = Self::verify_token_at(token, secret, now.seconds);
        assert(clock_reading(now) && match token_verdict(token@, secret@, now.seconds) {
            Ok(claims) => result matches Ok(found) && found@ == claims,
            Err(cause) => result matches Err(error) && error == AppError::Auth(cause),
        });
        result
    }

    /// The role that a registration gives, from what the store found when
    /// asked for any user of the tenant.
    pub fn determine_user_role(tenant_user: &Option<users::Model>) -> (role: UserRole)
        ensures
            role == first_role(tenant_user is Some),
    {
        if tenant_user.is_some() {
            UserRole::Regular
        } else {
            UserRole::Admin
        }
    }

    /// Puts together the user that a registration stores, from the request,
    /// the role, the moment, the identifier drawn for it and the hash of its
    /// password: an active user, created and updated at `now`.
    pub fn enroll(
        request: RegisterRequest,
        role: UserRole,
        now: DateTimeString,
        id: u128,
        password_hash: String,
    ) -> (user: users::Model)
        ensures
            user@ == (users::ModelView {
                id,
                tenant_id: request.tenant_id,
                email: request.email@,
                password_hash: password_hash@,
                role,
                status: UserStatus::Active,
                created_at: now,
                updated_at: now,
            }),
    {
        users::Model {
            id,
            tenant_id: request.tenant_id,
            email: request.email,
            password_hash,
            role,
            status: UserStatus::Active,
            created_at: now,
            updated_at: now,
        }
    }

    /// Makes the user that a registration stores: hashes the password, draws
    /// a fresh identifier that sorts by time, and puts the user together.
    /// It fails only for a password too long for the hasher.
    pub fn new_user(request: RegisterRequest, role: UserRole, now: DateTimeString) -> (result:
        Result<users::Model, AppError>)
        ensures
            hashable(request.password@) ==> result is Ok,
            result matches Ok(user) ==> enrolled(user@, request, role, now),
            result matches Err(error) ==> error == AppError::Internal,
    {
        match Self::hash_password(request.password.as_str()) {
            Err(error) => Err(error),
            Ok(password_hash) => Ok(Self::enroll(request, role, now, fresh_uuid(), password_hash)),
        }
    }

    /// Answers for `user` at the second `now`: a token that states the
    /// user's identity as the store has it, and the user without its
    /// password hash.
    pub fn respond(user: &users::Model, secret: &str, expiration_minutes: i64, now: i64) -> (result:
        Result<AuthResponse, AppError>)
        ensures
            responded(result, user@, secret@, expiration_minutes, now),
    {
        match Self::generate_token_at(
            user.id,
            user.tenant_id,
            user.email.clone(),
            user.role,
            secret,
            expiration_minutes,
            now,
        ) {
            Err(error) => Err(error),
            Ok(token) => Ok(AuthResponse { token, user: user.profile() }),
        }
    }

    /// Decides a login from what the store found for the address.
    pub fn login_check(found: Option<users::Model>, password: &str) -> (result: Result<
        users::Model,
        AppError,
    >)
        ensures
            outcome(result) == login_verdict(found_user(found), password@),
    {
        match found {
            None => Err(AppError::InvalidCredentials),
            Some(user) => match Self::verify_password(password, user.password_hash.as_str()) {
                Err(error) => Err(error),
                Ok(false) => Err(AppError::InvalidCredentials),
                Ok(true) => if user.status != UserStatus::Active {
                    Err(AppError::UserNotValidated)
                } else {
                    Ok(user)
                },
            },
        }
    }

    /// Decides a refresh from what the store found for the token's user.
    pub fn refresh_check(found: Option<users::Model>) -> (result: Result<users::Model, AppError>)
        ensures
            outcome(result) == refresh_verdict(found_user(found)),
    {
        match found {
            None => Err(AppError::UserNotFound),
            Some(user) => if user.status != UserStatus::Active {
                Err(AppError::UserNotValidated)
            } else {
                Ok(user)
            },
        }
    }

    /// Starts a registration: asks the store whether the address is taken
    /// in the tenant.
    pub fn begin_register(request: RegisterRequest) -> (step: AuthStep)
        ensures
            step matches AuthStep::Ask(AuthFlow::RegisterLookup(kept), Query::FindUser(key))
                && kept.tenant_id == request.tenant_id && kept.email@ == request.email@
                && kept.password@ == request.password@ && key@ == (UserKeyView::EmailAndTenant {
                email: request.email@,
                tenant_id: request.tenant_id,
            }),
    {
        let key = UserKey::EmailAndTenant {
            email: request.email.clone(),
            tenant_id: request.tenant_id,
        };
        AuthStep::Ask(AuthFlow::RegisterLookup(request), Query::FindUser(key))
    }

    /// Starts a login: asks the store for the user of the address, in
    /// whatever tenant.
    pub fn begin_login(request: LoginRequest) -> (step: AuthStep)
        ensures
            step matches AuthStep::Ask(AuthFlow::LoginLookup(kept), Query::FindUser(key))
                && kept.email@ == request.email@ && kept.password@ == request.password@ && key@
                == (UserKeyView::Email { email: request.email@ }),
    {
        let key = UserKey::Email { email: request.email.clone() };
        AuthStep::Ask(AuthFlow::LoginLookup(request), Query::FindUser(key))
    }

    /// Starts a refresh: asks the store for the user that the claims name.
    pub fn begin_refresh(claims: &Claims) -> (step: AuthStep)
        ensures
            step matches AuthStep::Ask(AuthFlow::RefreshLookup, Query::FindUser(key)) && key@ == (
            UserKeyView::Id { id: claims.user_id }),
    {
        AuthStep::Ask(AuthFlow::RefreshLookup, Query::FindUser(UserKey::Id { id: claims.user_id }))
    }

    /// Takes a flow one step further on the store's reply, at the moment
    /// `now`.
    pub fn resume(
        flow: AuthFlow,
        reply: Reply,
        secret: &str,
        expiration_minutes: i64,
        now: DateTimeString,
    ) -> (step: AuthStep)
        ensures
            resumed(flow, reply, secret@, expiration_minutes, now, step),
    {
        match (flow, reply) {
            (_, Reply::Failed(cause)) => AuthStep::Done(Err(AppError::Database(cause))),
            (AuthFlow::RegisterLookup(_), Reply::User(Some(_))) => AuthStep::Done(
                Err(AppError::UserAlreadyExists),
            ),
            (AuthFlow::RegisterLookup(request), Reply::User(None)) => {
                let key = UserKey::Tenant { tenant_id: request.tenant_id };
                AuthStep::Ask(AuthFlow::RegisterProbe(request), Query::FindUser(key))
            },
            (AuthFlow::RegisterProbe(request), Reply::User(found)) => {
                let role = Self::determine_user_role(&found);
                match Self::new_user(request, role, now) {
                    Err(error) => AuthStep::Done(Err(error)),
                    Ok(user) => AuthStep::Ask(AuthFlow::RegisterInsert, Query::InsertUser(user)),
                }
            },
            (AuthFlow::RegisterInsert, Reply::Saved(user)) => AuthStep::Done(
                Self::respond(&user, secret, expiration_minutes, now.seconds),
            ),
            (AuthFlow::LoginLookup(request), Reply::User(found)) => {
                match Self::login_check(found, request.password.as_str()) {
                    Err(error) => AuthStep::Done(Err(error)),
                    Ok(user) => AuthStep::Done(
                        Self::respond(&user, secret, expiration_minutes, now.seconds),
                    ),
                }
            },
            (AuthFlow::RefreshLookup, Reply::User(found)) => match Self::refresh_check(found) {
                Err(error) => AuthStep::Done(Err(error)),
                Ok(user) => AuthStep::Done(
                    Self::respond(&user, secret, expiration_minutes, now.seconds),
                ),
            },
            _ => AuthStep::Done(Err(AppError::Internal)),
        }
    }

    /// Registers a user at the moment `now`, with the store in memory.
    pub fn register_at(
        db: &mut MemoryStore,
        request: RegisterRequest,
        secret: &str,
        expiration_minutes: i64,
        now: DateTimeString,
    ) -> (result: Result<AuthResponse, AppError>)
        ensures
            registered(old(db)@, request, secret@, expiration_minutes, now, final(db)@, result),
    {
        match Self::begin_register(request) {
            AuthStep::Done(result) => result,
            AuthStep::Ask(flow, query) => {
                let reply = db.execute(query);
                match Self::resume(flow, reply, secret, expiration_minutes, now) {
                    AuthStep::Done(result) => result,
                    AuthStep::Ask(flow, query) => {
                        let reply = db.execute(query);
                        match Self::resume(flow, reply, secret, expiration_minutes, now) {
                            AuthStep::Done(result) => result,
                            AuthStep::Ask(flow, query) => {
                                let ghost before = db@;
                                let reply = db.execute(query);
                                assert(db@.users.drop_last() =~= before.users);
                                match Self::resume(flow, reply, secret, expiration_minutes, now) {
                                    AuthStep::Done(result) => result,
                                    AuthStep::Ask(_, _) => Err(AppError::Internal),
                                }
                            },
                        }
                    },
                }
            },
        }
    }

    /// Registers a user now, by the clock, with the store in memory.
    pub fn register(
        db: &mut MemoryStore,
        request: RegisterRequest,
        secret: &str,
        expiration_minutes: i64,
    ) -> (result: Result<AuthResponse, AppError>)
        ensures
            registration_verdict(old(db)@.users, request.email@, request.tenant_id) is Ok
                && hashable(request.password@) && lasting(expiration_minutes) ==> result is Ok,
            exists|now: DateTimeString|
                clock_reading(now) && #[trigger] registered(
                    old(db)@,
                    request,
                    secret@,
                    expiration_minutes,
                    now,
                    final(db)@,
                    result,
                ),
    {
        let now = utc_now();
        let ghost before = db@;
        let result = Self::register_at(db, request, secret, expiration_minutes, now);
        assert(clock_reading(now) && registered(
            before,
            request,
            secret@,
            expiration_minutes,
            now,
            db@,
            result,
        ));
        result
    }

    /// Signs a user in at the moment `now`, with the store in memory.
    pub fn login_at(
        db: &mut MemoryStore,
        request: LoginRequest,
        secret: &str,
        expiration_minutes: i64,
        now: DateTimeString,
    ) -> (result: Result<AuthResponse, AppError>)
        ensures
            final(db)@ == old(db)@,
            logged_in(old(db)@, request, secret@, expiration_minutes, now, result),
    {
        match Self::begin_login(request) {
            AuthStep::Done(result) => result,
            AuthStep::Ask(flow, query) => {
                let reply = db.execute(query);
                match Self::resume(flow, reply, secret, expiration_minutes, now) {
                    AuthStep::Done(result) => result,
                    AuthStep::Ask(_, _) => Err(AppError::Internal),
                }
            },
        }
    }

    /// Signs a user in now, by the clock, with the store in memory.
    pub fn login(
        db: &mut MemoryStore,
        request: LoginRequest,
        secret: &str,
        expiration_minutes: i64,
    ) -> (result: Result<AuthResponse, AppError>)
        ensures
            final(db)@ == old(db)@,
            lasting(expiration_minutes) && login_verdict(
                first_user(old(db)@.users, UserKeyView::Email { email: request.email@ }),
                request.password@,
            ) is Ok ==> result is Ok,
            exists|now: DateTimeString|
                clock_reading(now) && #[trigger] logged_in(
                    old(db)@,
                    request,
                    secret@,
                    expiration_minutes,
                    now,
                    result,
                ),
    {
        let now = utc_now();
        let result = Self::login_at(db, request, secret, expiration_minutes, now);
        assert(clock_reading(now) && logged_in(
            db@,
            request,
            secret@,
            expiration_minutes,
            now,
            result,
        ));
        result
    }

    /// Issues a new token for the user of `claims` at the moment `now`,
    /// with the store in memory.
    pub fn refresh_token_at(
        db: &mut MemoryStore,
        claims: Claims,
        secret: &str,
        expiration_minutes: i64,
        now: DateTimeString,
    ) -> (result: Result<AuthResponse, AppError>)
        ensures
            final(db)@ == old(db)@,
            refreshed(old(db)@, claims.user_id, secret@, expiration_minutes, now, result),
    {
        match Self::begin_refresh(&claims) {
            AuthStep::Done(result) => result,
            AuthStep::Ask(flow, query) => {
                let reply = db.execute(query);
                match Self::resume(flow, reply, secret, expiration_minutes, now) {
                    AuthStep::Done(result) => result,
                    AuthStep::Ask(_, _) => Err(AppError::Internal),
                }
            },
        }
    }

    /// Issues a new token for the user of `claims` now, by the clock, with
    /// the store in memory.
    pub fn refresh_token(
        db: &mut MemoryStore,
        claims: Claims,
        secret: &str,
        expiration_minutes: i64,
    ) -> (result: Result<AuthResponse, AppError>)
        ensures
            final(db)@ == old(db)@,
            lasting(expiration_minutes) && refresh_verdict(
                first_user(old(db)@.users, UserKeyView::Id { id: claims.user_id }),
            ) is Ok ==> result is Ok,
            exists|now: DateTimeString|
                clock_reading(now) && #[trigger] refreshed(
                    old(db)@,
                    claims.user_id,
                    secret@,
                    expiration_minutes,
                    now,
                    result,
                ),
    {
        let now = utc_now();
        let result = Self::refresh_token_at(db, claims, secret, expiration_minutes, now);
        assert(clock_reading(now) && refreshed(
            db@,
            claims.user_id,
            secret@,
            expiration_minutes,
            now,
            result,
        ));
        result
    }
}

} // verus!

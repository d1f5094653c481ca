use crate::db::{
    first_user, found_user, identifiers_unique, lemma_position_after_push,
    lemma_position_is_first, position_from, MemoryStoreView, Query, Reply, UserKeyView,
};
use crate::enums::{UserRole, UserStatus};
use crate::models::common::DateTimeString;
use crate::models::users;
use crate::services::auth_service::claims::{expiry_fits, issued};
use crate::services::auth_service::password_verdict;
use crate::services::auth_service::requests::{AuthResponse, LoginRequest, RegisterRequest};
use crate::trusted::hasher::hashable;
use crate::utils::error::{AppError, Failure};
use vstd::prelude::*;

verus! {

/// Where a flow of the service stands while it waits for the store. Each
/// query is answered on its own: nothing here holds the store still between
/// the two lookups of a registration and its insertion, so two
/// registrations that run at once in a tenant without users may both be
/// made `admin`, unless the store itself rules that out.
#[derive(Debug, PartialEq, Eq)]
pub enum AuthFlow {
    /// A registration that has asked whether the address is taken.
    RegisterLookup(RegisterRequest),
    /// A registration that has asked whether the tenant has any user.
    RegisterProbe(RegisterRequest),
    /// A registration that has handed the new user to the store.
    RegisterInsert,
    /// A login that has asked for the user of the address.
    LoginLookup(LoginRequest),
    /// A refresh that has asked for the user of the token.
    RefreshLookup,
}

/// What a flow does next: ask the store and wait, or finish.
#[derive(Debug, PartialEq, Eq)]
pub enum AuthStep {
    Ask(AuthFlow, Query),
    Done(Result<AuthResponse, AppError>),
}

/// The role of a new user: `admin` for the first user of a tenant,
/// `regular` for every later one.
pub open spec fn first_role(tenant_has_users: bool) -> UserRole {
    if tenant_has_users {
        UserRole::Regular
    } else {
        UserRole::Admin
    }
}

/// What a registration comes to before anything is stored: refused where
/// the address is taken in the tenant, else the role of the new user.
pub open spec fn registration_verdict(
    users: Seq<users::ModelView>,
    email: Seq<char>,
    tenant_id: u128,
) -> Result<UserRole, Failure> {
    if first_user(users, UserKeyView::EmailAndTenant { email, tenant_id }) is Some {
        Err(Failure::UserAlreadyExists)
    } else {
        Ok(first_role(first_user(users, UserKeyView::Tenant { tenant_id }) is Some))
    }
}

/// Whether `user` is what registering `request` at the moment `now` with
/// the role `role` stores: an active user of the tenant and address asked
/// for, with a hash that is not empty and that the password verifies
/// against.
pub open spec fn enrolled(
    user: users::ModelView,
    request: RegisterRequest,
    role: UserRole,
    now: DateTimeString,
) -> bool {
    &&& user.tenant_id == request.tenant_id
    &&& user.email == request.email@
    &&& user.role == role
    &&& user.status == UserStatus::Active
    &&& user.created_at == now
    &&& user.updated_at == now
    &&& user.password_hash.len() > 0
    &&& password_verdict(request.password@, user.password_hash) == Ok::<bool, Failure>(true)
}

/// What a login comes to once the store has answered: an unknown address
/// and a wrong password are the same failure, so that the answer does not
/// tell which addresses have accounts; a user that is not active is turned
/// away even with the right password.
pub open spec fn login_verdict(found: Option<users::ModelView>, password: Seq<char>) -> Result<
    users::ModelView,
    Failure,
> {
    match found {
        None => Err(Failure::InvalidCredentials),
        Some(user) => match password_verdict(password, user.password_hash) {
            Err(failure) => Err(failure),
            Ok(false) => Err(Failure::InvalidCredentials),
            Ok(true) => if user.status != UserStatus::Active {
                Err(Failure::UserNotValidated)
            } else {
                Ok(user)
            },
        },
    }
}

/// What a refresh comes to once the store has answered.
pub open spec fn refresh_verdict(found: Option<users::ModelView>) -> Result<
    users::ModelView,
    Failure,
> {
    match found {
        None => Err(Failure::UserNotFound),
        Some(user) => if user.status != UserStatus::Active {
            Err(Failure::UserNotValidated)
        } else {
            Ok(user)
        },
    }
}

/// Whether `result` is what answering for `user` at the second `now` owes:
/// the user without its password hash, and a token issued at `now` that
/// states the user's identity as the store has it. The answer is owed
/// whenever the token's expiry can be written in 64 bits; where it cannot,
/// the result is `Internal`.
pub open spec fn responded(
    result: Result<AuthResponse, AppError>,
    user: users::ModelView,
    secret: Seq<char>,
    minutes: i64,
    now: i64,
) -> bool {
    match result {
        Ok(response) => response.user@ == user.profile() && issued(
            response.token@,
            secret,
            user.id,
            user.tenant_id,
            user.email,
            user.role,
            minutes,
            now,
        ),
        Err(error) => error == AppError::Internal && !expiry_fits(now, minutes),
    }
}

/// Whether `step` is what a flow that stood at `flow` does on the store's
/// `reply`. A failure of the store ends every flow as `Database`; a reply
/// of a kind that the flow did not ask for ends it as `Internal`. A
/// registration goes on to the insertion for every password that fits the
/// hasher; only for a longer one may it end as `Internal`.
pub open spec fn resumed(
    flow: AuthFlow,
    reply: Reply,
    secret: Seq<char>,
    minutes: i64,
    now: DateTimeString,
    step: AuthStep,
) -> bool {
    match (flow, reply) {
        (_, Reply::Failed(cause)) => step matches AuthStep::Done(Err(error)) && error@
            == Failure::Database(cause@),
        (AuthFlow::RegisterLookup(request), Reply::User(Some(_))) => step matches AuthStep::Done(
            Err(error),
        ) && error == AppError::UserAlreadyExists,
        (AuthFlow::RegisterLookup(request), Reply::User(None)) => {
            &&& step matches AuthStep::Ask(AuthFlow::RegisterProbe(kept), Query::FindUser(key))
            &&& kept.tenant_id == request.tenant_id
            &&& kept.email@ == request.email@
            &&& kept.password@ == request.password@
            &&& key@ == UserKeyView::Tenant { tenant_id: request.tenant_id }
        },
        (AuthFlow::RegisterProbe(request), Reply::User(found)) => {
            ||| step matches AuthStep::Ask(AuthFlow::RegisterInsert, Query::InsertUser(user))
                && enrolled(user@, request, first_role(found is Some), now)
            ||| !hashable(request.password@) && (step matches AuthStep::Done(Err(error))
                && error == AppError::Internal)
        },
        (AuthFlow::RegisterInsert, Reply::Saved(user)) => step matches AuthStep::Done(result)
            && responded(result, user@, secret, minutes, now.seconds),
        (AuthFlow::LoginLookup(request), Reply::User(found)) => match login_verdict(
            found_user(found),
            request.password@,
        ) {
            Err(failure) => step matches AuthStep::Done(Err(error)) && error@ == failure,
            Ok(user) => step matches AuthStep::Done(result) && responded(
                result,
                user,
                secret,
                minutes,
                now.seconds,
            ),
        },
        (AuthFlow::RefreshLookup, Reply::User(found)) => match refresh_verdict(found_user(found)) {
            Err(failure) => step matches AuthStep::Done(Err(error)) && error@ == failure,
            Ok(user) => step matches AuthStep::Done(result) && responded(
                result,
                user,
                secret,
                minutes,
                now.seconds,
            ),
        },
        _ => step matches AuthStep::Done(Err(error)) && error == AppError::Internal,
    }
}

/// Whether a registration of `request` at the moment `now`, on a store
/// that stood at `before`, may leave the store at `after` and come to
/// `result`. Where the address is taken in the tenant nothing is stored and
/// the result is `UserAlreadyExists`. Else one user is added at the end:
/// the one that [`enrolled`] describes, with the role that [`first_role`]
/// gives, and the result answers for that user as [`responded`] says. The
/// user is stored before the token is made, so it stays stored where the
/// token's expiry cannot be written. Only for a password too long for the
/// hasher may nothing be stored and the result be `Internal`.
pub open spec fn registered(
    before: MemoryStoreView,
    request: RegisterRequest,
    secret: Seq<char>,
    minutes: i64,
    now: DateTimeString,
    after: MemoryStoreView,
    result: Result<AuthResponse, AppError>,
) -> bool {
    &&& after.tenants == before.tenants
    &&& match registration_verdict(before.users, request.email@, request.tenant_id) {
        Err(failure) => after.users == before.users && (result matches Err(error) && error@
            == failure),
        Ok(role) => {
            ||| {
                &&& after.users.len() == before.users.len() + 1
                &&& after.users.drop_last() == before.users
                &&& enrolled(after.users.last(), request, role, now)
                &&& responded(result, after.users.last(), secret, minutes, now.seconds)
            }
            ||| {
                &&& !hashable(request.password@)
                &&& after.users == before.users
                &&& result matches Err(error)
                &&& error == AppError::Internal
            }
        },
    }
}

/// Whether a login of `request` at the moment `now`, on a store that stands
/// at `store`, may come to `result`. The user is looked up by its address
/// alone, in whatever tenant: where two tenants hold the same address, the
/// first user of the store is taken.
pub open spec fn logged_in(
    store: MemoryStoreView,
    request: LoginRequest,
    secret: Seq<char>,
    minutes: i64,
    now: DateTimeString,
    result: Result<AuthResponse, AppError>,
) -> bool {
    match login_verdict(
        first_user(store.users, UserKeyView::Email { email: request.email@ }),
        request.password@,
    ) {
        Err(failure) => result matches Err(error) && error@ == failure,
        Ok(user) => responded(result, user, secret, minutes, now.seconds),
    }
}

/// Whether a refresh for `user_id` at the moment `now`, on a store that
/// stands at `store`, may come to `result`. The new token states what the
/// store holds of the user now, not what the old token stated.
pub open spec fn refreshed(
    store: MemoryStoreView,
    user_id: u128,
    secret: Seq<char>,
    minutes: i64,
    now: DateTimeString,
    result: Result<AuthResponse, AppError>,
) -> bool {
    match refresh_verdict(first_user(store.users, UserKeyView::Id { id: user_id })) {
        Err(failure) => result matches Err(error) && error@ == failure,
        Ok(user) => responded(result, user, secret, minutes, now.seconds),
    }
}

/// Whether no two of the users share an address within one tenant.
pub open spec fn addresses_unique(users: Seq<users::ModelView>) -> bool {
    forall|i: int, j: int|
        0 <= i < users.len() && 0 <= j < users.len() && i != j ==> !((#[trigger] users[i]).email
            == (#[trigger] users[j]).email && users[i].tenant_id == users[j].tenant_id)
}

/// Whether a registration of `request` at the moment `now` is free to
/// succeed once the address is free: the password fits the hasher and the
/// token's expiry can be written.
pub open spec fn can_succeed(request: RegisterRequest, minutes: i64, now: DateTimeString) -> bool {
    hashable(request.password@) && expiry_fits(now.seconds, minutes)
}

/// A registration for an address that is free in the tenant succeeds and
/// stores exactly one user, at the end and with nothing before it changed:
/// an active user of the tenant and address asked for.
pub proof fn lemma_free_address_registers(
    before: MemoryStoreView,
    request: RegisterRequest,
    now: DateTimeString,
    result: Result<AuthResponse, AppError>,
    after: MemoryStoreView,
    secret: Seq<char>,
    minutes: i64,
)
    requires
        registered(before, request, secret, minutes, now, after, result),
        first_user(
            before.users,
            UserKeyView::EmailAndTenant { email: request.email@, tenant_id: request.tenant_id },
        ) is None,
        can_succeed(request, minutes, now),
    ensures
        result is Ok,
        after.users == before.users.push(after.users.last()),
        after.tenants == before.tenants,
        result->Ok_0.user@ == after.users.last().profile(),
        result->Ok_0.user.email@ == request.email@,
        result->Ok_0.user.tenant_id == request.tenant_id,
        result->Ok_0.user.status == UserStatus::Active,
{
    assert(after.users =~= before.users.push(after.users.last()));
}

/// Of two registrations for the same address in the same tenant, the first
/// succeeds where the address was free, and the second is refused as
/// `UserAlreadyExists` and stores nothing.
pub proof fn lemma_second_registration_refused(
    before: MemoryStoreView,
    first: RegisterRequest,
    first_now: DateTimeString,
    first_result: Result<AuthResponse, AppError>,
    between: MemoryStoreView,
    second: RegisterRequest,
    second_now: DateTimeString,
    second_result: Result<AuthResponse, AppError>,
    after: MemoryStoreView,
    secret: Seq<char>,
    minutes: i64,
)
    requires
        first_user(
            before.users,
            UserKeyView::EmailAndTenant { email: first.email@, tenant_id: first.tenant_id },
        ) is None,
        can_succeed(first, minutes, first_now),
        registered(before, first, secret, minutes, first_now, between, first_result),
        registered(between, second, secret, minutes, second_now, after, second_result),
        second.email@ == first.email@,
        second.tenant_id == first.tenant_id,
    ensures
        first_result is Ok,
        second_result matches Err(error) && error == AppError::UserAlreadyExists,
        after == between,
{
    let key = UserKeyView::EmailAndTenant { email: first.email@, tenant_id: first.tenant_id };
    assert(between.users =~= before.users.push(between.users.last()));
    lemma_position_after_push(before.users, between.users.last(), key, 0);
}

/// The first registration in a tenant that has no user succeeds and yields
/// `admin`; the registration that follows in that tenant, for another
/// address, succeeds and yields `regular`, and leaves the first user as it
/// was.
pub proof fn lemma_first_admin_then_regular(
    before: MemoryStoreView,
    first: RegisterRequest,
    first_now: DateTimeString,
    first_result: Result<AuthResponse, AppError>,
    between: MemoryStoreView,
    second: RegisterRequest,
    second_now: DateTimeString,
    second_result: Result<AuthResponse, AppError>,
    after: MemoryStoreView,
    secret: Seq<char>,
    minutes: i64,
)
    requires
        first_user(before.users, UserKeyView::Tenant { tenant_id: first.tenant_id }) is None,
        can_succeed(first, minutes, first_now),
        can_succeed(second, minutes, second_now),
        registered(before, first, secret, minutes, first_now, between, first_result),
        registered(between, second, secret, minutes, second_now, after, second_result),
        second.tenant_id == first.tenant_id,
        second.email@ != first.email@,
    ensures
        first_result is Ok,
        first_result->Ok_0.user.role == UserRole::Admin,
        second_result is Ok,
        second_result->Ok_0.user.role == UserRole::Regular,
        after.users.len() == before.users.len() + 2,
        after.users[before.users.len() as int] == between.users.last(),
        after.users[before.users.len() as int].role == UserRole::Admin,
{
    let tenant = UserKeyView::Tenant { tenant_id: first.tenant_id };
    let address = UserKeyView::EmailAndTenant { email: first.email@, tenant_id: first.tenant_id };
    let other = UserKeyView::EmailAndTenant { email: second.email@, tenant_id: first.tenant_id };
    lemma_position_is_first(before.users, tenant, 0);
    lemma_position_is_first(before.users, address, 0);
    lemma_position_is_first(before.users, other, 0);
    assert(between.users =~= before.users.push(between.users.last()));
    lemma_position_after_push(before.users, between.users.last(), tenant, 0);
    lemma_position_after_push(before.users, between.users.last(), other, 0);
    assert(after.users.drop_last()[before.users.len() as int] == between.users.last());
}

/// An address that is taken in one tenant is free in every other: a
/// registration is refused as `UserAlreadyExists` exactly where the pair of
/// address and tenant is stored, and an address stored only with other
/// tenants is accepted.
pub proof fn lemma_address_is_taken_per_tenant(
    users: Seq<users::ModelView>,
    email: Seq<char>,
    tenant_id: u128,
)
    ensures
        registration_verdict(users, email, tenant_id) is Err <==> exists|place: int|
            0 <= place < users.len() && (#[trigger] users[place]).email == email
                && users[place].tenant_id == tenant_id,
        registration_verdict(users, email, tenant_id) is Err ==> registration_verdict(
            users,
            email,
            tenant_id,
        ) == Err::<UserRole, Failure>(Failure::UserAlreadyExists),
{
    let key = UserKeyView::EmailAndTenant { email, tenant_id };
    lemma_position_is_first(users, key, 0);
    if registration_verdict(users, email, tenant_id) is Err {
        let place = position_from(users, key, 0)->Some_0;
        assert(users[place].email == email && users[place].tenant_id == tenant_id);
    } else {
        assert forall|place: int| 0 <= place < users.len() implies !((
        #[trigger] users[place]).email == email && users[place].tenant_id == tenant_id) by {
            assert(!key.admits(users[place]));
        }
    }
}

/// A login of an active user with the right password, and a refresh for an
/// active user, succeed wherever the token's expiry can be written, answer
/// with the user as the store holds it, and leave the store alone.
pub proof fn lemma_active_user_is_answered(
    store: MemoryStoreView,
    request: LoginRequest,
    user_id: u128,
    secret: Seq<char>,
    minutes: i64,
    now: DateTimeString,
    login: Result<AuthResponse, AppError>,
    refresh: Result<AuthResponse, AppError>,
)
    requires
        expiry_fits(now.seconds, minutes),
        logged_in(store, request, secret, minutes, now, login),
        refreshed(store, user_id, secret, minutes, now, refresh),
    ensures
        login_verdict(
            first_user(store.users, UserKeyView::Email { email: request.email@ }),
            request.password@,
        ) matches Ok(user) ==> login is Ok && login->Ok_0.user@ == user.profile(),
        refresh_verdict(first_user(store.users, UserKeyView::Id { id: user_id })) matches Ok(user)
            ==> refresh is Ok && refresh->Ok_0.user@ == user.profile(),
{
}

/// A registration never stores a second user of one address in one tenant:
/// where the addresses were unique within each tenant before, they are
/// after.
pub proof fn lemma_registration_keeps_addresses_unique(
    before: MemoryStoreView,
    request: RegisterRequest,
    now: DateTimeString,
    result: Result<AuthResponse, AppError>,
    after: MemoryStoreView,
    secret: Seq<char>,
    minutes: i64,
)
    requires
        addresses_unique(before.users),
        registered(before, request, secret, minutes, now, after, result),
    ensures
        addresses_unique(after.users),
{
    if after.users != before.users {
        let key = UserKeyView::EmailAndTenant {
            email: request.email@,
            tenant_id: request.tenant_id,
        };
        lemma_position_is_first(before.users, key, 0);
        assert(after.users =~= before.users.push(after.users.last()));
        assert forall|i: int, j: int|
            0 <= i < after.users.len() && 0 <= j < after.users.len() && i != j implies !((
            #[trigger] after.users[i]).email == (#[trigger] after.users[j]).email
            && after.users[i].tenant_id == after.users[j].tenant_id) by {
            if i < before.users.len() && j < before.users.len() {
                assert(after.users[i] == before.users[i]);
                assert(after.users[j] == before.users[j]);
            } else if i < before.users.len() {
                assert(after.users[i] == before.users[i]);
                assert(!key.admits(before.users[i]));
            } else {
                assert(after.users[j] == before.users[j]);
                assert(!key.admits(before.users[j]));
            }
        }
    }
}

/// A registration keeps the identifiers distinct as long as the identifier
/// drawn for the new user is borne by no user yet. The draw itself is left
/// to chance: nothing here rules a repeated identifier out.
pub proof fn lemma_registration_keeps_identifiers_unique(
    before: MemoryStoreView,
    request: RegisterRequest,
    now: DateTimeString,
    result: Result<AuthResponse, AppError>,
    after: MemoryStoreView,
    secret: Seq<char>,
    minutes: i64,
)
    requires
        identifiers_unique(before.users),
        registered(before, request, secret, minutes, now, after, result),
        after.users != before.users ==> forall|place: int|
            0 <= place < before.users.len() ==> (#[trigger] before.users[place]).id
                != after.users.last().id,
    ensures
        identifiers_unique(after.users),
{
    if after.users != before.users {
        assert(after.users =~= before.users.push(after.users.last()));
        assert forall|i: int, j: int|
            0 <= i < after.users.len() && 0 <= j < after.users.len() && i != j implies (
        #[trigger] after.users[i]).id != (#[trigger] after.users[j]).id by {
            if i < before.users.len() {
                assert(after.users[i] == before.users[i]);
            }
            if j < before.users.len() {
                assert(after.users[j] == before.users[j]);
            }
        }
    }
}

/// A login with an unknown address and a login with a wrong password fail
/// alike, as `InvalidCredentials`: the answer does not tell whether the
/// address has an account.
pub proof fn lemma_login_hides_unknown_address(user: users::ModelView, password: Seq<char>)
    ensures
        login_verdict(None, password) == Err::<users::ModelView, Failure>(
            Failure::InvalidCredentials,
        ),
        password_verdict(password, user.password_hash) == Ok::<bool, Failure>(false)
            ==> login_verdict(Some(user), password) == Err::<users::ModelView, Failure>(
            Failure::InvalidCredentials,
        ),
{
}

/// A user that is not active is turned away as `UserNotValidated`, at
/// login even with the right password, and at refresh.
pub proof fn lemma_inactive_user_turned_away(user: users::ModelView, password: Seq<char>)
    requires
        user.status == UserStatus::Inactive,
    ensures
        password_verdict(password, user.password_hash) == Ok::<bool, Failure>(true)
            ==> login_verdict(Some(user), password) == Err::<users::ModelView, Failure>(
            Failure::UserNotValidated,
        ),
        refresh_verdict(Some(user)) == Err::<users::ModelView, Failure>(
            Failure::UserNotValidated,
        ),
{
}

} // verus!

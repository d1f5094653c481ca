use crate::db::{
    first_user, identifiers_unique, lemma_position_is_first, position_from, replaced,
    MemoryStore, Query, Reply, UserKey, UserKeyView,
};
use crate::models::users;
use crate::utils::error::{AppError, Failure};
use vstd::prelude::*;

verus! {

/// The administration of the users of a tenant: the two toggles.
pub struct UsersService;

/// Where a change of a user stands while it waits for the store.
#[derive(Debug, PartialEq, Eq)]
pub enum UserFlow {
    /// A change of status that has asked for the user.
    StatusLookup,
    /// A change of role that has asked for the user.
    RoleLookup,
    /// A change that has handed the changed user to the store.
    Saving,
}

/// What a change does next: ask the store and wait, or finish.
#[derive(Debug, PartialEq, Eq)]
pub enum UserStep {
    Ask(UserFlow, Query),
    Done(Result<users::Model, AppError>),
}

/// The user with its status toggled and nothing else changed.
pub open spec fn with_status_toggled(user: users::ModelView) -> users::ModelView {
    users::ModelView { status: user.status.flipped(), ..user }
}

/// The user with its role toggled and nothing else changed.
pub open spec fn with_role_toggled(user: users::ModelView) -> users::ModelView {
    users::ModelView { role: user.role.flipped(), ..user }
}

/// Whether `step` is what a change that stood at `flow` does on the store's
/// `reply`. A user that the store does not have, at the lookup or at the
/// saving, ends the change as `UserNotFound`; a failure of the store as
/// `Database`; a reply of a kind that was not asked for as `Internal`.
pub open spec fn resumed(flow: UserFlow, reply: Reply, step: UserStep) -> bool {
    match (flow, reply) {
        (_, Reply::Failed(cause)) => step matches UserStep::Done(Err(error)) && error@
            == Failure::Database(cause@),
        (_, Reply::User(None)) => step matches UserStep::Done(Err(error)) && error
            == AppError::UserNotFound,
        (UserFlow::StatusLookup, Reply::User(Some(user))) => step matches UserStep::Ask(
            UserFlow::Saving,
            Query::UpdateUser(changed),
        ) && changed@ == with_status_toggled(user@),
        (UserFlow::RoleLookup, Reply::User(Some(user))) => step matches UserStep::Ask(
            UserFlow::Saving,
            Query::UpdateUser(changed),
        ) && changed@ == with_role_toggled(user@),
        (UserFlow::Saving, Reply::Saved(user)) => step matches UserStep::Done(Ok(stored))
            && stored@ == user@,
        _ => step matches UserStep::Done(Err(error)) && error == AppError::Internal,
    }
}

/// Whether a change of the user `user_id` of the tenant `tenant_id`, on
/// users that stood at `before`, may leave them at `after` and come to
/// `result`, where `change` is what the change does to a user. The user is
/// looked up and replaced in the caller's tenant, so a user of another
/// tenant is neither found nor touched, whatever its identifier.
pub open spec fn changed(
    before: Seq<users::ModelView>,
    user_id: u128,
    tenant_id: u128,
    change: spec_fn(users::ModelView) -> users::ModelView,
    after: Seq<users::ModelView>,
    result: Result<users::Model, AppError>,
) -> bool {
    match first_user(before, UserKeyView::IdAndTenant { id: user_id, tenant_id }) {
        None => after == before && (result matches Err(error) && error == AppError::UserNotFound),
        Some(user) => {
            &&& replaced(before, change(user)) == Some(after)
            &&& result matches Ok(stored)
            &&& stored@ == change(user)
        },
    }
}

/// What the lookup of one user comes to on the store's `reply`.
pub open spec fn looked_up(reply: Reply, result: Result<users::Model, AppError>) -> bool {
    match reply {
        Reply::User(Some(user)) => result matches Ok(found) && found@ == user@,
        Reply::User(None) => result matches Err(error) && error == AppError::UserNotFound,
        Reply::Failed(cause) => result matches Err(error) && error@ == Failure::Database(cause@),
        _ => result matches Err(error) && error == AppError::Internal,
    }
}

impl UsersService {
    /// Decides the lookup of one user from the store's reply.
    pub fn found(reply: Reply) -> (result: Result<users::Model, AppError>)
        ensures
            looked_up(reply, result),
    {
        match reply {
            Reply::User(Some(user)) => Ok(user),
            Reply::User(None) => Err(AppError::UserNotFound),
            Reply::Failed(cause) => Err(AppError::Database(cause)),
            _ => Err(AppError::Internal),
        }
    }

    /// Starts a change of status: asks the store for the user, within the
    /// tenant.
    pub fn begin_change_user_status(user_id: u128, tenant_id: u128) -> (step: UserStep)
        ensures
            step matches UserStep::Ask(UserFlow::StatusLookup, Query::FindUser(key)) && key@ == (
            UserKeyView::IdAndTenant { id: user_id, tenant_id }),
    {
        UserStep::Ask(
            UserFlow::StatusLookup,
            Query::FindUser(UserKey::IdAndTenant { id: user_id, tenant_id }),
        )
    }

    /// Starts a change of role: asks the store for the user, within the
    /// tenant.
    pub fn begin_change_role(user_id: u128, tenant_id: u128) -> (step: UserStep)
        ensures
            step matches UserStep::Ask(UserFlow::RoleLookup, Query::FindUser(key)) && key@ == (
            UserKeyView::IdAndTenant { id: user_id, tenant_id }),
    {
        UserStep::Ask(
            UserFlow::RoleLookup,
            Query::FindUser(UserKey::IdAndTenant { id: user_id, tenant_id }),
        )
    }

    /// Takes a change one step further on the store's reply.
    pub fn resume(flow: UserFlow, reply: Reply) -> (step: UserStep)
        ensures
            resumed(flow, reply, step),
    {
        match (flow, reply) {
            (_, Reply::Failed(cause)) => UserStep::Done(Err(AppError::Database(cause))),
            (_, Reply::User(None)) => UserStep::Done(Err(AppError::UserNotFound)),
            (UserFlow::StatusLookup, Reply::User(Some(user))) => {
                let changed = users::Model { status: user.status.toggled(), ..user };
                UserStep::Ask(UserFlow::Saving, Query::UpdateUser(changed))
            },
            (UserFlow::RoleLookup, Reply::User(Some(user))) => {
                let changed = users::Model { role: user.role.toggled(), ..user };
                UserStep::Ask(UserFlow::Saving, Query::UpdateUser(changed))
            },
            (UserFlow::Saving, Reply::Saved(user)) => UserStep::Done(Ok(user)),
            _ => UserStep::Done(Err(AppError::Internal)),
        }
    }

    /// Runs a change that has been started to its end, with the store in
    /// memory.
    fn finish(db: &mut MemoryStore, step: UserStep) -> (result: Result<users::Model, AppError>)
        requires
            step matches UserStep::Ask(flow, Query::FindUser(key)) && (flow is StatusLookup
                || flow is RoleLookup) && key@ is IdAndTenant,
        ensures
            final(db)@.tenants == old(db)@.tenants,
            step matches UserStep::Ask(flow, Query::FindUser(key)) && changed(
                old(db)@.users,
                key@->IdAndTenant_id,
                key@->IdAndTenant_tenant_id,
                if flow is StatusLookup {
                    |user: users::ModelView| with_status_toggled(user)
                } else {
                    |user: users::ModelView| with_role_toggled(user)
                },
                final(db)@.users,
                result,
            ),
    {
        match step {
            UserStep::Done(result) => result,
            UserStep::Ask(flow, query) => {
                proof {
                    lemma_position_is_first(db@.users, query->FindUser_0@, 0);
                }
                let reply = db.execute(query);
                match Self::resume(flow, reply) {
                    UserStep::Done(result) => result,
                    UserStep::Ask(flow, query) => {
                        let reply = db.execute(query);
                        match Self::resume(flow, reply) {
                            UserStep::Done(result) => result,
                            UserStep::Ask(_, _) => Err(AppError::Internal),
                        }
                    },
                }
            },
        }
    }

    /// Toggles the status of a user of the tenant between active and
    /// inactive, with the store in memory.
    pub fn change_user_status(db: &mut MemoryStore, user_id: u128, tenant_id: u128) -> (result:
        Result<users::Model, AppError>)
        ensures
            final(db)@.tenants == old(db)@.tenants,
            changed(
                old(db)@.users,
                user_id,
                tenant_id,
                |user: users::ModelView| with_status_toggled(user),
                final(db)@.users,
                result,
            ),
    {
        Self::finish(db, Self::begin_change_user_status(user_id, tenant_id))
    }

    /// Toggles the role of a user of the tenant between admin and regular,
    /// with the store in memory.
    pub fn change_role(db: &mut MemoryStore, user_id: u128, tenant_id: u128) -> (result: Result<
        users::Model,
        AppError,
    >)
        ensures
            final(db)@.tenants == old(db)@.tenants,
            changed(
                old(db)@.users,
                user_id,
                tenant_id,
                |user: users::ModelView| with_role_toggled(user),
                final(db)@.users,
                result,
            ),
    {
        Self::finish(db, Self::begin_change_role(user_id, tenant_id))
    }
}

/// A toggle is its own inverse and always changes the user: toggling twice
/// gives the user back, toggling once never does.
pub proof fn lemma_toggled_twice(user: users::ModelView)
    ensures
        with_status_toggled(with_status_toggled(user)) == user,
        with_role_toggled(with_role_toggled(user)) == user,
        with_status_toggled(user) != user,
        with_role_toggled(user) != user,
        with_status_toggled(user).role == user.role,
        with_role_toggled(user).status == user.status,
{
}

/// A change touches one user and that one only: the first user of the
/// identifier within the tenant. No user is added or removed, no user of
/// another tenant is touched even where it bears the same identifier, and
/// identifiers that were distinct stay distinct.
pub proof fn lemma_change_touches_one_user(
    before: Seq<users::ModelView>,
    user_id: u128,
    tenant_id: u128,
    toggles_status: bool,
    after: Seq<users::ModelView>,
    result: Result<users::Model, AppError>,
)
    requires
        changed(
            before,
            user_id,
            tenant_id,
            if toggles_status {
                |user: users::ModelView| with_status_toggled(user)
            } else {
                |user: users::ModelView| with_role_toggled(user)
            },
            after,
            result,
        ),
    ensures
        after.len() == before.len(),
        forall|place: int|
            0 <= place < before.len() && !(before[place].id == user_id && before[place].tenant_id
                == tenant_id) ==> #[trigger] after[place] == before[place],
        forall|place: int|
            0 <= place < before.len() ==> (#[trigger] after[place]).id == before[place].id
                && after[place].tenant_id == before[place].tenant_id,
        identifiers_unique(before) ==> identifiers_unique(after),
        result is Ok ==> exists|place: int|
            0 <= place < before.len() && #[trigger] before[place].id == user_id
                && before[place].tenant_id == tenant_id && after[place] == result->Ok_0@,
{
    let key = UserKeyView::IdAndTenant { id: user_id, tenant_id };
    lemma_position_is_first(before, key, 0);
    if first_user(before, key) is Some {
        let place = position_from(before, key, 0)->Some_0;
        assert(before[place].id == user_id && before[place].tenant_id == tenant_id);
        assert(after[place] == result->Ok_0@);
    }
    if identifiers_unique(before) {
        assert forall|i: int, j: int|
            0 <= i < after.len() && 0 <= j < after.len() && i != j implies (#[trigger] after[i]).id
            != (#[trigger] after[j]).id by {
            assert(after[i].id == before[i].id);
            assert(after[j].id == before[j].id);
        }
    }
}

} // verus!

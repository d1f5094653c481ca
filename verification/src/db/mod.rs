use crate::models::{tenants, users};
use vstd::prelude::*;

verus! {

/// By what a user is looked up.
#[derive(Debug, PartialEq, Eq)]
pub enum UserKey {
    EmailAndTenant { email: String, tenant_id: u128 },
    Email { email: String },
    Id { id: u128 },
    IdAndTenant { id: u128, tenant_id: u128 },
    Tenant { tenant_id: u128 },
}

/// The mathematical value of a [`UserKey`].
pub enum UserKeyView {
    EmailAndTenant { email: Seq<char>, tenant_id: u128 },
    Email { email: Seq<char> },
    Id { id: u128 },
    IdAndTenant { id: u128, tenant_id: u128 },
    Tenant { tenant_id: u128 },
}

/// What the services ask of the store.
#[derive(Debug, PartialEq, Eq)]
pub enum Query {
    /// The first user that the key admits.
    FindUser(UserKey),
    InsertUser(users::Model),
    /// Replaces the user of the same identifier in the same tenant.
    UpdateUser(users::Model),
    FindTenant(u128),
    ListTenants,
}

/// What the store answers.
#[derive(Debug, PartialEq, Eq)]
pub enum Reply {
    User(Option<users::Model>),
    /// The user as it now stands in the store.
    Saved(users::Model),
    Tenant(Option<tenants::Model>),
    Tenants(Vec<tenants::Model>),
    /// The store failed; the text is its own account of it.
    Failed(String),
}

impl View for UserKey {
    type V = UserKeyView;

    open spec fn view(&self) -> UserKeyView {
        match *self {
            UserKey::EmailAndTenant { email, tenant_id } => UserKeyView::EmailAndTenant {
                email: email@,
                tenant_id,
            },
            UserKey::Email { email } => UserKeyView::Email { email: email@ },
            UserKey::Id { id } => UserKeyView::Id { id },
            UserKey::IdAndTenant { id, tenant_id } => UserKeyView::IdAndTenant { id, tenant_id },
            UserKey::Tenant { tenant_id } => UserKeyView::Tenant { tenant_id },
        }
    }
}

impl UserKeyView {
    /// Whether the key admits `user`.
    pub open spec fn admits(self, user: users::ModelView) -> bool {
        match self {
            UserKeyView::EmailAndTenant { email, tenant_id } => user.email == email
                && user.tenant_id == tenant_id,
            UserKeyView::Email { email } => user.email == email,
            UserKeyView::Id { id } => user.id == id,
            UserKeyView::IdAndTenant { id, tenant_id } => user.id == id && user.tenant_id
                == tenant_id,
            UserKeyView::Tenant { tenant_id } => user.tenant_id == tenant_id,
        }
    }
}

impl UserKey {
    /// Tells whether the key admits `user`.
    pub fn admits(&self, user: &users::Model) -> (admitted: bool)
        ensures
            admitted == self@.admits(user@),
    {
        match self {
            UserKey::EmailAndTenant { email, tenant_id } => user.email == *email && user.tenant_id
                == *tenant_id,
            UserKey::Email { email } => user.email == *email,
            UserKey::Id { id } => user.id == *id,
            UserKey::IdAndTenant { id, tenant_id } => user.id == *id && user.tenant_id
                == *tenant_id,
            UserKey::Tenant { tenant_id } => user.tenant_id == *tenant_id,
        }
    }
}

/// The values of some users, in their order.
pub open spec fn user_views(users: Seq<users::Model>) -> Seq<users::ModelView> {
    Seq::new(users.len(), |i: int| users[i]@)
}

/// The values of some tenants, in their order.
pub open spec fn tenant_views(tenants: Seq<tenants::Model>) -> Seq<tenants::ModelView> {
    Seq::new(tenants.len(), |i: int| tenants[i]@)
}

/// The value of a user that may be missing.
pub open spec fn found_user(found: Option<users::Model>) -> Option<users::ModelView> {
    match found {
        Some(user) => Some(user@),
        None => None,
    }
}

/// The value of a tenant that may be missing.
pub open spec fn found_tenant(found: Option<tenants::Model>) -> Option<tenants::ModelView> {
    match found {
        Some(tenant) => Some(tenant@),
        None => None,
    }
}

/// The place of the first user from `from` on that `key` admits.
pub open spec fn position_from(users: Seq<users::ModelView>, key: UserKeyView, from: int) -> Option<
    int,
>
    decreases users.len() - from,
{
    if from < 0 || from >= users.len() {
        None
    } else if key.admits(users[from]) {
        Some(from)
    } else {
        position_from(users, key, from + 1)
    }
}

/// The first user that `key` admits.
pub open spec fn first_user(users: Seq<users::ModelView>, key: UserKeyView) -> Option<
    users::ModelView,
> {
    match position_from(users, key, 0) {
        Some(place) => Some(users[place]),
        None => None,
    }
}

/// The place of the first tenant from `from` on whose identifier is `id`.
pub open spec fn tenant_position_from(tenants: Seq<tenants::ModelView>, id: u128, from: int) -> Option<
    int,
>
    decreases tenants.len() - from,
{
    if from < 0 || from >= tenants.len() {
        None
    } else if tenants[from].id == id {
        Some(from)
    } else {
        tenant_position_from(tenants, id, from + 1)
    }
}

/// The first tenant whose identifier is `id`.
pub open spec fn first_tenant(tenants: Seq<tenants::ModelView>, id: u128) -> Option<
    tenants::ModelView,
> {
    match tenant_position_from(tenants, id, 0) {
        Some(place) => Some(tenants[place]),
        None => None,
    }
}

/// The key under which a user is replaced: its identifier within its
/// tenant. A user never changes its tenant, and none of another tenant is
/// ever replaced in its place.
pub open spec fn own_key(user: users::ModelView) -> UserKeyView {
    UserKeyView::IdAndTenant { id: user.id, tenant_id: user.tenant_id }
}

/// The users after `user` has replaced the first one of its identifier and
/// tenant; `None` where there is none.
pub open spec fn replaced(users: Seq<users::ModelView>, user: users::ModelView) -> Option<
    Seq<users::ModelView>,
> {
    match position_from(users, own_key(user), 0) {
        Some(place) => Some(users.update(place, user)),
        None => None,
    }
}

/// Whether no two of the users share an identifier.
pub open spec fn identifiers_unique(users: Seq<users::ModelView>) -> bool {
    forall|i: int, j: int|
        0 <= i < users.len() && 0 <= j < users.len() && i != j ==> (#[trigger] users[i]).id != (
        #[trigger] users[j]).id
}

/// What a search finds lies in the list at its place, is admitted by the
/// key, and nothing before it is.
pub proof fn lemma_position_is_first(users: Seq<users::ModelView>, key: UserKeyView, from: int)
    requires
        0 <= from,
    ensures
        match position_from(users, key, from) {
            Some(place) => from <= place < users.len() && key.admits(users[place]) && forall|
                other: int,
            |
                from <= other < place ==> !key.admits(#[trigger] users[other]),
            None => forall|other: int|
                from <= other < users.len() ==> !key.admits(#[trigger] users[other]),
        },
    decreases users.len() - from,
{
    if from < users.len() && !key.admits(users[from]) {
        lemma_position_is_first(users, key, from + 1);
    }
}

/// Adding a user at the end changes no search that found something, and
/// lets a search that found nothing find the new user where the key admits
/// it.
pub proof fn lemma_position_after_push(
    users: Seq<users::ModelView>,
    user: users::ModelView,
    key: UserKeyView,
    from: int,
)
    requires
        0 <= from <= users.len(),
    ensures
        position_from(users.push(user), key, from) == match position_from(users, key, from) {
            Some(place) => Some(place),
            None => if key.admits(user) {
                Some(users.len() as int)
            } else {
                None
            },
        },
    decreases users.len() - from,
{
    let longer = users.push(user);
    if from < users.len() {
        assert(longer[from] == users[from]);
        if !key.admits(users[from]) {
            lemma_position_after_push(users, user, key, from + 1);
        }
    } else {
        assert(longer[from] == user);
        assert(position_from(longer, key, from + 1) is None);
    }
}

/// The store of users and tenants, held in memory. It keeps what it is
/// given in the order in which it came.
#[derive(Debug, PartialEq, Eq)]
pub struct MemoryStore {
    pub users: Vec<users::Model>,
    pub tenants: Vec<tenants::Model>,
}

/// The mathematical value of a [`MemoryStore`].
pub struct MemoryStoreView {
    pub users: Seq<users::ModelView>,
    pub tenants: Seq<tenants::ModelView>,
}

impl View for MemoryStore {
    type V = MemoryStoreView;

    open spec fn view(&self) -> MemoryStoreView {
        MemoryStoreView { users: user_views(self.users@), tenants: tenant_views(self.tenants@) }
    }
}

/// Whether a store that stood at `before` may answer `query` with `reply`
/// and stand at `after`: a search changes nothing and finds the first
/// match; an insertion adds at the end; an update replaces the first user
/// of the same identifier and tenant and answers that there is no such
/// user where there is none.
pub open spec fn answered(
    before: MemoryStoreView,
    query: Query,
    after: MemoryStoreView,
    reply: Reply,
) -> bool {
    match query {
        Query::FindUser(key) => {
            &&& after == before
            &&& reply matches Reply::User(found)
            &&& found_user(found) == first_user(before.users, key@)
        },
        Query::InsertUser(user) => {
            &&& after.tenants == before.tenants
            &&& after.users == before.users.push(user@)
            &&& reply matches Reply::Saved(stored)
            &&& stored@ == user@
        },
        Query::UpdateUser(user) => {
            &&& after.tenants == before.tenants
            &&& match replaced(before.users, user@) {
                Some(users) => {
                    &&& after.users == users
                    &&& reply matches Reply::Saved(stored)
                    &&& stored@ == user@
                },
                None => after.users == before.users && reply == Reply::User(None),
            }
        },
        Query::FindTenant(id) => {
            &&& after == before
            &&& reply matches Reply::Tenant(found)
            &&& found_tenant(found) == first_tenant(before.tenants, id)
        },
        Query::ListTenants => {
            &&& after == before
            &&& reply matches Reply::Tenants(all)
            &&& tenant_views(all@) == before.tenants
        },
    }
}

impl MemoryStore {
    /// The store without users and without tenants.
    pub fn new() -> (store: MemoryStore)
        ensures
            store@.users.len() == 0,
            store@.tenants.len() == 0,
    {
        MemoryStore { users: Vec::new(), tenants: Vec::new() }
    }

    /// The first user that `key` admits.
    pub fn find_user(&self, key: &UserKey) -> (found: Option<users::Model>)
        ensures
            found_user(found) == first_user(self@.users, key@),
    {
        let mut place: usize = 0;
        while place < self.users.len()
            invariant
                place <= self.users.len(),
                position_from(self@.users, key@, 0) == position_from(
                    self@.users,
                    key@,
                    place as int,
                ),
            decreases self.users.len() - place,
        {
            assert(self@.users[place as int] == self.users[place as int]@);
            if key.admits(&self.users[place]) {
                return Some(self.users[place].clone());
            }
            place = place + 1;
        }
        None
    }

    /// The first tenant whose identifier is `id`.
    pub fn find_tenant(&self, id: u128) -> (found: Option<tenants::Model>)
        ensures
            found_tenant(found) == first_tenant(self@.tenants, id),
    {
        let mut place: usize = 0;
        while place < self.tenants.len()
            invariant
                place <= self.tenants.len(),
                tenant_position_from(self@.tenants, id, 0) == tenant_position_from(
                    self@.tenants,
                    id,
                    place as int,
                ),
            decreases self.tenants.len() - place,
        {
            assert(self@.tenants[place as int] == self.tenants[place as int]@);
            if self.tenants[place].id == id {
                return Some(self.tenants[place].clone());
            }
            place = place + 1;
        }
        None
    }

    /// All tenants, in the order of the store.
    pub fn list_tenants(&self) -> (all: Vec<tenants::Model>)
        ensures
            tenant_views(all@) == self@.tenants,
    {
        let mut all: Vec<tenants::Model> = Vec::new();
        let mut place: usize = 0;
        while place < self.tenants.len()
            invariant
                place <= self.tenants.len(),
                all@.len() == place,
                tenant_views(all@) == self@.tenants.take(place as int),
            decreases self.tenants.len() - place,
        {
            assert(self@.tenants[place as int] == self.tenants[place as int]@);
            let ghost copied = all@;
            let copy = self.tenants[place].clone();
            all.push(copy);
            place = place + 1;
            assert forall|i: int| 0 <= i < all@.len() implies tenant_views(all@)[i]
                == self@.tenants.take(place as int)[i] by {
                if i < copied.len() {
                    assert(tenant_views(copied)[i] == self@.tenants.take(place - 1)[i]);
                }
            }
            assert(tenant_views(all@) =~= self@.tenants.take(place as int));
        }
        assert(self@.tenants.take(place as int) =~= self@.tenants);
        all
    }

    /// Adds `user` at the end and hands it back as stored.
    pub fn insert_user(&mut self, user: users::Model) -> (stored: users::Model)
        ensures
            stored@ == user@,
            final(self)@.users == old(self)@.users.push(user@),
            final(self)@.tenants == old(self)@.tenants,
    {
        let stored = user.clone();
        self.users.push(user);
        assert(final(self)@.users =~= old(self)@.users.push(user@));
        stored
    }

    /// Puts `user` in the place of the first user of its identifier and
    /// tenant and hands it back as stored; `None`, and nothing changed,
    /// where the store has no such user.
    pub fn update_user(&mut self, user: users::Model) -> (stored: Option<users::Model>)
        ensures
            final(self)@.tenants == old(self)@.tenants,
            match replaced(old(self)@.users, user@) {
                Some(users) => final(self)@.users == users && found_user(stored) == Some(user@),
                None => final(self)@.users == old(self)@.users && stored is None,
            },
    {
        let mut place: usize = 0;
        while place < self.users.len()
            invariant
                place <= self.users.len(),
                *self == *old(self),
                position_from(self@.users, own_key(user@), 0) == position_from(
                    self@.users,
                    own_key(user@),
                    place as int,
                ),
            decreases self.users.len() - place,
        {
            assert(self@.users[place as int] == self.users[place as int]@);
            if self.users[place].id == user.id && self.users[place].tenant_id == user.tenant_id {
                let stored = user.clone();
                self.users.set(place, user);
                assert(final(self)@.users =~= old(self)@.users.update(place as int, user@));
                return Some(stored);
            }
            place = place + 1;
        }
        None
    }

    /// Answers one query of a service.
    pub fn execute(&mut self, query: Query) -> (reply: Reply)
        ensures
            answered(old(self)@, query, final(self)@, reply),
    {
        match query {
            Query::FindUser(key) => Reply::User(self.find_user(&key)),
            Query::InsertUser(user) => Reply::Saved(self.insert_user(user)),
            Query::UpdateUser(user) => match self.update_user(user) {
                Some(stored) => Reply::Saved(stored),
                None => Reply::User(None),
            },
            Query::FindTenant(id) => Reply::Tenant(self.find_tenant(id)),
            Query::ListTenants => Reply::Tenants(self.list_tenants()),
        }
    }
}

} // verus!

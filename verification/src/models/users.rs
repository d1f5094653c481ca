use crate::enums::{UserRole, UserStatus};
use crate::models::common::DateTimeString;
use vstd::prelude::*;

verus! {

/// A user as the store keeps it. A user belongs to one tenant for its whole
/// life, and its e-mail address is unique within that tenant.
#[derive(Debug, PartialEq, Eq)]
pub struct Model {
    pub id: u128,
    pub tenant_id: u128,
    pub email: String,
    pub password_hash: String,
    pub role: UserRole,
    pub status: UserStatus,
    pub created_at: DateTimeString,
    pub updated_at: DateTimeString,
}

/// The mathematical value of a [`Model`].
pub struct ModelView {
    pub id: u128,
    pub tenant_id: u128,
    pub email: Seq<char>,
    pub password_hash: Seq<char>,
    pub role: UserRole,
    pub status: UserStatus,
    pub created_at: DateTimeString,
    pub updated_at: DateTimeString,
}

/// A user as it is shown to a caller: everything but the password hash.
#[derive(Debug, PartialEq, Eq)]
pub struct Profile {
    pub id: u128,
    pub tenant_id: u128,
    pub email: String,
    pub role: UserRole,
    pub status: UserStatus,
    pub created_at: DateTimeString,
    pub updated_at: DateTimeString,
}

/// The mathematical value of a [`Profile`].
pub struct ProfileView {
    pub id: u128,
    pub tenant_id: u128,
    pub email: Seq<char>,
    pub role: UserRole,
    pub status: UserStatus,
    pub created_at: DateTimeString,
    pub updated_at: DateTimeString,
}

impl View for Model {
    type V = ModelView;

    open spec fn view(&self) -> ModelView {
        ModelView {
            id: self.id,
            tenant_id: self.tenant_id,
            email: self.email@,
            password_hash: self.password_hash@,
            role: self.role,
            status: self.status,
            created_at: self.created_at,
            updated_at: self.updated_at,
        }
    }
}

impl View for Profile {
    type V = ProfileView;

    open spec fn view(&self) -> ProfileView {
        ProfileView {
            id: self.id,
            tenant_id: self.tenant_id,
            email: self.email@,
            role: self.role,
            status: self.status,
            created_at: self.created_at,
            updated_at: self.updated_at,
        }
    }
}

impl ModelView {
    /// The user without its password hash.
    pub open spec fn profile(self) -> ProfileView {
        ProfileView {
            id: self.id,
            tenant_id: self.tenant_id,
            email: self.email,
            role: self.role,
            status: self.status,
            created_at: self.created_at,
            updated_at: self.updated_at,
        }
    }
}

impl Clone for Model {
    fn clone(&self) -> (copy: Model)
        ensures
            copy@ == self@,
    {
        Model {
            id: self.id,
            tenant_id: self.tenant_id,
            email: self.email.clone(),
            password_hash: self.password_hash.clone(),
            role: self.role,
            status: self.status,
            created_at: self.created_at,
            updated_at: self.updated_at,
        }
    }
}

impl Clone for Profile {
    fn clone(&self) -> (copy: Profile)
        ensures
            copy@ == self@,
    {
        Profile {
            id: self.id,
            tenant_id: self.tenant_id,
            email: self.email.clone(),
            role: self.role,
            status: self.status,
            created_at: self.created_at,
            updated_at: self.updated_at,
        }
    }
}

impl Model {
    /// What of the user may leave the library.
    pub fn profile(&self) -> (shown: Profile)
        ensures
            shown@ == self@.profile(),
    {
        Profile {
            id: self.id,
            tenant_id: self.tenant_id,
            email: self.email.clone(),
            role: self.role,
            status: self.status,
            created_at: self.created_at,
            updated_at: self.updated_at,
        }
    }
}

} // verus!

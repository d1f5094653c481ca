use crate::enums::TenantStatus;
use crate::models::common::DateTimeString;
use vstd::prelude::*;

verus! {

/// A tenant as the store keeps it: the namespace that owns a set of users.
#[derive(Debug, PartialEq, Eq)]
pub struct Model {
    pub id: u128,
    pub name: String,
    pub status: TenantStatus,
    pub created_at: DateTimeString,
    pub updated_at: DateTimeString,
}

/// The mathematical value of a [`Model`].
pub struct ModelView {
    pub id: u128,
    pub name: Seq<char>,
    pub status: TenantStatus,
    pub created_at: DateTimeString,
    pub updated_at: DateTimeString,
}

impl View for Model {
    type V = ModelView;

    open spec fn view(&self) -> ModelView {
        ModelView {
            id: self.id,
            name: self.name@,
            status: self.status,
            created_at: self.created_at,
            updated_at: self.updated_at,
        }
    }
}

impl Clone for Model {
    fn clone(&self) -> (copy: Model)
        ensures
            copy@ == self@,
    {
        Model {
            id: self.id,
            name: self.name.clone(),
            status: self.status,
            created_at: self.created_at,
            updated_at: self.updated_at,
        }
    }
}

} // verus!

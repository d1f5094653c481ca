use crate::middleware::validation::{texts, Validate};
use crate::models::users;
use crate::trusted::email::{email_is_valid, is_email};
use vstd::prelude::*;
use vstd::string::StrSliceExecFns;

verus! {

/// A request to open an account in a tenant.
#[derive(Debug, PartialEq, Eq)]
pub struct RegisterRequest {
    pub tenant_id: u128,
    pub email: String,
    pub password: String,
}

/// A request to sign in.
#[derive(Debug, PartialEq, Eq)]
pub struct LoginRequest {
    pub email: String,
    pub password: String,
}

/// What a finished registration, login or refresh hands back: a fresh
/// token and the user, without its password hash.
#[derive(Debug, PartialEq, Eq)]
pub struct AuthResponse {
    pub token: String,
    pub user: users::Profile,
}

/// The failures of an e-mail field: none where it holds an address.
pub open spec fn email_failures(email: Seq<char>) -> Seq<Seq<char>> {
    if is_email(email) {
        Seq::empty()
    } else {
        seq!["email: Invalid email format"@]
    }
}

/// The failures of the password of a registration: none where it has
/// between 8 and 100 characters.
pub open spec fn new_password_failures(password: Seq<char>) -> Seq<Seq<char>> {
    if 8 <= password.len() <= 100 {
        Seq::empty()
    } else {
        seq!["password: Password must be between 8 and 100 characters"@]
    }
}

/// The failures of the password of a login: none where it is not empty.
pub open spec fn password_failures(password: Seq<char>) -> Seq<Seq<char>> {
    if password.len() >= 1 {
        Seq::empty()
    } else {
        seq!["password: Password is required"@]
    }
}

impl Validate for RegisterRequest {
    open spec fn failures(&self) -> Seq<Seq<char>> {
        email_failures(self.email@) + new_password_failures(self.password@)
    }

    fn validate(&self) -> (found: Vec<String>) {
        let mut found: Vec<String> = Vec::new();
        if !email_is_valid(self.email.as_str()) {
            found.push("email: Invalid email format".to_string());
        }
        let length = self.password.as_str().unicode_len();
        if length < 8 || length > 100 {
            found.push("password: Password must be between 8 and 100 characters".to_string());
        }
        assert(texts(found@) =~= self.failures());
        found
    }
}

impl Validate for LoginRequest {
    open spec fn failures(&self) -> Seq<Seq<char>> {
        email_failures(self.email@) + password_failures(self.password@)
    }

    fn validate(&self) -> (found: Vec<String>) {
        let mut found: Vec<String> = Vec::new();
        if !email_is_valid(self.email.as_str()) {
            found.push("email: Invalid email format".to_string());
        }
        if self.password.as_str().unicode_len() < 1 {
            found.push("password: Password is required".to_string());
        }
        assert(texts(found@) =~= self.failures());
        found
    }
}

} // verus!

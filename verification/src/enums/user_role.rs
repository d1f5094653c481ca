use crate::utils::text::same_text;
use vstd::prelude::*;

verus! {

/// What a user may do inside its tenant.
#[derive(Clone, Copy, Debug, PartialEq, Eq, Hash, Structural)]
pub enum UserRole {
    Admin,
    Regular,
}

impl UserRole {
    /// The lower-case name under which the role is stored and signed.
    pub open spec fn text(self) -> Seq<char> {
        match self {
            UserRole::Admin => "admin"@,
            UserRole::Regular => "regular"@,
        }
    }

    /// The role that `text` names, if any.
    pub open spec fn named(text: Seq<char>) -> Option<UserRole> {
        if text == "admin"@ {
            Some(UserRole::Admin)
        } else if text == "regular"@ {
            Some(UserRole::Regular)
        } else {
            None
        }
    }

    /// The other role: roles are a binary toggle.
    pub open spec fn flipped(self) -> UserRole {
        match self {
            UserRole::Admin => UserRole::Regular,
            UserRole::Regular => UserRole::Admin,
        }
    }

    pub fn as_str(self) -> (text: &'static str)
        ensures
            text@ == self.text(),
    {
        match self {
            UserRole::Admin => "admin",
            UserRole::Regular => "regular",
        }
    }

    pub fn parse(text: &str) -> (role: Option<UserRole>)
        ensures
            role == Self::named(text@),
    {
        if same_text(text, "admin") {
            Some(UserRole::Admin)
        } else if same_text(text, "regular") {
            Some(UserRole::Regular)
        } else {
            None
        }
    }

    pub fn toggled(self) -> (role: UserRole)
        ensures
            role == self.flipped(),
    {
        match self {
            UserRole::Admin => UserRole::Regular,
            UserRole::Regular => UserRole::Admin,
        }
    }

    /// A role is recovered from its own name.
    pub proof fn lemma_named_text(self)
        ensures
            Self::named(self.text()) == Some(self),
    {
        reveal_strlit("admin");
        reveal_strlit("regular");
        assert("admin"@.len() == 5);
        assert("regular"@.len() == 7);
    }

    /// Toggling twice gives the role back, and toggling once never does.
    pub proof fn lemma_flipped_twice(self)
        ensures
            self.flipped().flipped() == self,
            self.flipped() != self,
    {
    }
}

} // verus!

use crate::utils::text::same_text;
use vstd::prelude::*;

verus! {

/// Whether a user may sign in.
#[derive(Clone, Copy, Debug, PartialEq, Eq, Hash, Structural)]
pub enum UserStatus {
    Active,
    Inactive,
}

impl UserStatus {
    /// The lower-case name under which the status is stored.
    pub open spec fn text(self) -> Seq<char> {
        match self {
            UserStatus::Active => "active"@,
            UserStatus::Inactive => "inactive"@,
        }
    }

    /// The status that `text` names, if any.
    pub open spec fn named(text: Seq<char>) -> Option<UserStatus> {
        if text == "active"@ {
            Some(UserStatus::Active)
        } else if text == "inactive"@ {
            Some(UserStatus::Inactive)
        } else {
            None
        }
    }

    /// The other status: a status is a binary toggle.
    pub open spec fn flipped(self) -> UserStatus {
        match self {
            UserStatus::Active => UserStatus::Inactive,
            UserStatus::Inactive => UserStatus::Active,
        }
    }

    pub fn as_str(self) -> (text: &'static str)
        ensures
            text@ == self.text(),
    {
        match self {
            UserStatus::Active => "active",
            UserStatus::Inactive => "inactive",
        }
    }

    pub fn parse(text: &str) -> (status: Option<UserStatus>)
        ensures
            status == Self::named(text@),
    {
        if same_text(text, "active") {
            Some(UserStatus::Active)
        } else if same_text(text, "inactive") {
            Some(UserStatus::Inactive)
        } else {
            None
        }
    }

    pub fn toggled(self) -> (status: UserStatus)
        ensures
            status == self.flipped(),
    {
        match self {
            UserStatus::Active => UserStatus::Inactive,
            UserStatus::Inactive => UserStatus::Active,
        }
    }

    /// A status is recovered from its own name.
    pub proof fn lemma_named_text(self)
        ensures
            Self::named(self.text()) == Some(self),
    {
        reveal_strlit("active");
        reveal_strlit("inactive");
        assert("active"@.len() == 6);
        assert("inactive"@.len() == 8);
    }

    /// Toggling twice gives the status back, and toggling once never does.
    pub proof fn lemma_flipped_twice(self)
        ensures
            self.flipped().flipped() == self,
            self.flipped() != self,
    {
    }
}

} // verus!

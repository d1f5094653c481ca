use crate::utils::text::same_text;
use vstd::prelude::*;

verus! {

/// The standing of a tenant. It is kept with the tenant; no rule of this
/// library depends on it.
#[derive(Clone, Copy, Debug, PartialEq, Eq, Hash, Structural)]
pub enum TenantStatus {
    Active,
    Suspended,
}

impl TenantStatus {
    /// The lower-case name under which the status is stored.
    pub open spec fn text(self) -> Seq<char> {
        match self {
            TenantStatus::Active => "active"@,
            TenantStatus::Suspended => "suspended"@,
        }
    }

    /// The status that `text` names, if any.
    pub open spec fn named(text: Seq<char>) -> Option<TenantStatus> {
        if text == "active"@ {
            Some(TenantStatus::Active)
        } else if text == "suspended"@ {
            Some(TenantStatus::Suspended)
        } else {
            None
        }
    }

    pub fn as_str(self) -> (text: &'static str)
        ensures
            text@ == self.text(),
    {
        match self {
            TenantStatus::Active => "active",
            TenantStatus::Suspended => "suspended",
        }
    }

    pub fn parse(text: &str) -> (status: Option<TenantStatus>)
        ensures
            status == Self::named(text@),
    {
        if same_text(text, "active") {
            Some(TenantStatus::Active)
        } else if same_text(text, "suspended") {
            Some(TenantStatus::Suspended)
        } else {
            None
        }
    }

    /// A status is recovered from its own name.
    pub proof fn lemma_named_text(self)
        ensures
            Self::named(self.text()) == Some(self),
    {
        reveal_strlit("active");
        reveal_strlit("suspended");
        assert("active"@.len() == 6);
        assert("suspended"@.len() == 9);
    }
}

} // verus!

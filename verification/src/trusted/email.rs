use validator::ValidateEmail;
use vstd::prelude::*;

verus! {

/// Whether `text` is an e-mail address as `validator` judges it: by the
/// HTML5 form of an address, with an internationalised or a bracketed
/// numeric domain allowed.
pub uninterp spec fn is_email(text: Seq<char>) -> bool;

/// `ValidateEmail::validate_email` on a string slice.
#[verifier::external_body]
pub(crate) fn email_is_valid(text: &str) -> (valid: bool)
    ensures
        valid == is_email(text@),
{
    text.validate_email()
}

} // verus!

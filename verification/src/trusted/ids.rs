use vstd::prelude::*;

verus! {

/// The hyphenated lower-case text of the UUID whose 128 bits are `id`.
pub uninterp spec fn uuid_text(id: u128) -> Seq<char>;

/// The 128 bits of the UUID that `text` spells, in any of the forms that
/// `Uuid::parse_str` reads; `None` where it spells none.
pub uninterp spec fn uuid_value(text: Seq<char>) -> Option<u128>;

/// `Uuid::now_v7`, as the 128 bits that `Uuid::as_u128` gives: a fresh
/// identifier that sorts by its time of creation. Nothing is claimed of its
/// value.
#[verifier::external_body]
pub(crate) fn fresh_uuid() -> (id: u128) {
    uuid::Uuid::now_v7().as_u128()
}

/// `Uuid`'s `Display` on `Uuid::from_u128(id)`: the hyphenated lower-case
/// text of `id`, which `Uuid::parse_str` reads back as `id`.
#[verifier::external_body]
pub(crate) fn format_uuid(id: u128) -> (text: String)
    ensures
        text@ == uuid_text(id),
        uuid_value(text@) == Some(id),
{
    uuid::Uuid::from_u128(id).to_string()
}

/// `Uuid::parse_str`, the UUID as the 128 bits that `Uuid::as_u128` gives.
#[verifier::external_body]
pub(crate) fn parse_uuid(text: &str) -> (id: Option<u128>)
    ensures
        id == uuid_value(text@),
{
    uuid::Uuid::parse_str(text).ok().map(|uuid| uuid.as_u128())
}

} // verus!

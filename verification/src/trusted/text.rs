use vstd::prelude::*;

verus! {

/// `str::strip_prefix`: when `text` starts with `prefix` the rest of `text`
/// is returned, otherwise `None`.
#[verifier::external_body]
pub(crate) fn strip_prefix<'a>(text: &'a str, prefix: &str) -> (rest: Option<&'a str>)
    ensures
        match rest {
            Some(tail) => text@ == prefix@ + tail@,
            None => !prefix@.is_prefix_of(text@),
        },
{
    text.strip_prefix(prefix)
}

/// The number that `text` spells in decimal digits after an optional sign,
/// where it fits in 64 signed bits; `None` for every other text.
pub uninterp spec fn decimal_i64(text: Seq<char>) -> Option<i64>;

/// The number that `text` spells in decimal digits after an optional `+`,
/// where it fits in 64 bits; `None` for every other text.
pub uninterp spec fn decimal_u64(text: Seq<char>) -> Option<u64>;

/// The number that `text` spells in decimal digits after an optional `+`,
/// where it fits in 32 bits; `None` for every other text.
pub uninterp spec fn decimal_u32(text: Seq<char>) -> Option<u32>;

/// The number that `text` spells in decimal digits after an optional `+`,
/// where it fits in 16 bits; `None` for every other text.
pub uninterp spec fn decimal_u16(text: Seq<char>) -> Option<u16>;

/// The lower-case form of `text`, by Unicode's rules.
pub uninterp spec fn lowercase(text: Seq<char>) -> Seq<char>;

/// `str::parse` for `i64`.
#[verifier::external_body]
pub(crate) fn parse_i64(text: &str) -> (number: Option<i64>)
    ensures
        number == decimal_i64(text@),
{
    text.parse::<i64>().ok()
}

/// `str::parse` for `u64`.
#[verifier::external_body]
pub(crate) fn parse_u64(text: &str) -> (number: Option<u64>)
    ensures
        number == decimal_u64(text@),
{
    text.parse::<u64>().ok()
}

/// `str::parse` for `u32`.
#[verifier::external_body]
pub(crate) fn parse_u32(text: &str) -> (number: Option<u32>)
    ensures
        number == decimal_u32(text@),
{
    text.parse::<u32>().ok()
}

/// `str::parse` for `u16`.
#[verifier::external_body]
pub(crate) fn parse_u16(text: &str) -> (number: Option<u16>)
    ensures
        number == decimal_u16(text@),
{
    text.parse::<u16>().ok()
}

/// `str::to_lowercase`.
#[verifier::external_body]
pub(crate) fn to_lowercase(text: &str) -> (lowered: String)
    ensures
        lowered@ == lowercase(text@),
{
    text.to_lowercase()
}

} // verus!

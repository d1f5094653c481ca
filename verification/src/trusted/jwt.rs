use crate::trusted::json::{all_plain, holds_some_text, json_members, JsonMember};
use vstd::prelude::*;

verus! {

/// `jsonwebtoken::errors::Error`, what the codec complains of. Nothing
/// reads it.
#[verifier::external_type_specification]
#[verifier::external_body]
pub struct ExJwtError(jsonwebtoken::errors::Error);

/// The payload of `token` where `token` is a well-formed HS256 token whose
/// signature was made with `secret`, whose payload is a JSON object, and
/// which names no audience; `None` for every other text. Nothing else of
/// the payload is examined: neither expiry nor any required claim.
pub uninterp spec fn signed_payload(token: Seq<char>, secret: Seq<char>) -> Option<
    Map<Seq<char>, JsonMember>,
>;

/// The token that signing a payload of strings and integers with `secret`
/// gives: the default header and the payload, each as JSON in base64, and
/// the HMAC-SHA256 of the two under the bytes of `secret`. The members are
/// written in the order of their names, so the text depends on the members
/// and the secret alone.
pub uninterp spec fn signed_token(members: Map<Seq<char>, JsonMember>, secret: Seq<char>) -> Seq<
    char,
>;

/// Whether `text` is three parts with a dot between each two, no part
/// empty and none with a dot in it.
pub open spec fn three_parts(text: Seq<char>) -> bool {
    exists|first: int, second: int|
        #![trigger text[first], text[second]]
        {
            &&& 0 < first
            &&& first + 1 < second
            &&& second + 1 < text.len()
            &&& text[first] == '.'
            &&& text[second] == '.'
            &&& forall|place: int|
                0 <= place < text.len() && place != first && place != second ==> #[trigger] text[place]
                    != '.'
        }
}

/// `jsonwebtoken::encode` with the default header (HS256) and a key made by
/// `EncodingKey::from_secret` from the bytes of `secret`, for a payload
/// whose members are strings and integers and which names no audience. The
/// contract claims four things.
/// A token always comes back: the key is of the header's family, strings
/// and integers are always written, and an HMAC is always made. The token
/// is the one that [`signed_token`] names. It is header, payload and
/// signature with a dot between each two. And opened with the same secret
/// it yields the payload that was signed.
#[verifier::external_body]
pub(crate) fn jwt_sign(payload: &serde_json::Map<String, serde_json::Value>, secret: &str) -> (signed:
    Result<String, jsonwebtoken::errors::Error>)
    requires
        all_plain(json_members(*payload)),
        !holds_some_text(json_members(*payload), "aud"@),
    ensures
        signed is Ok,
        signed matches Ok(token) ==> token@ == signed_token(json_members(*payload), secret@),
        signed matches Ok(token) ==> three_parts(token@),
        signed matches Ok(token) ==> signed_payload(token@, secret@) == Some(
            json_members(*payload),
        ),
{
    jsonwebtoken::encode(
        &jsonwebtoken::Header::default(),
        payload,
        &jsonwebtoken::EncodingKey::from_secret(secret.as_bytes()),
    )
}

/// `jsonwebtoken::decode` into a JSON object, for HS256 and a key made by
/// `DecodingKey::from_secret` from the bytes of `secret`, with the checks on
/// expiry and required claims switched off: what is left is the token's
/// form, its header, its signature, and that it names no audience, since
/// none is expected.
#[verifier::external_body]
pub(crate) fn jwt_open(token: &str, secret: &str) -> (opened: Result<
    serde_json::Map<String, serde_json::Value>,
    jsonwebtoken::errors::Error,
>)
    ensures
        match opened {
            Ok(payload) => signed_payload(token@, secret@) == Some(json_members(payload)),
            Err(_) => signed_payload(token@, secret@).is_none(),
        },
{
    let mut validation = jsonwebtoken::Validation::new(jsonwebtoken::Algorithm::HS256);
    validation.validate_exp = false;
    validation.required_spec_claims.clear();
    let key = jsonwebtoken::DecodingKey::from_secret(secret.as_bytes());
    jsonwebtoken::decode::<serde_json::Map<String, serde_json::Value>>(token, &key, &validation)
        .map(|data| data.claims)
}

} // verus!

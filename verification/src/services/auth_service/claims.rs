use crate::enums::UserRole;
use crate::models::common::DateTimeString;
use crate::trusted::clock::clock_reading;
use crate::trusted::ids::{format_uuid, parse_uuid, uuid_text, uuid_value};
use crate::trusted::json::{
    all_plain, holds_some_integer, holds_some_text, json_integer, json_members, json_object,
    json_put_integer, json_put_text, json_text, no_members, JsonMember,
};
use crate::trusted::jwt::{signed_payload, signed_token, three_parts};
use crate::utils::error::{AppError, AuthError};
use vstd::prelude::*;

verus! {

/// What a session token states: who the caller is, which tenant it belongs
/// to, what it may do, and the second at which the statement lapses. A token
/// is a snapshot: it is believed as signed until it lapses, whatever the
/// store says by then.
#[derive(Debug, PartialEq, Eq)]
pub struct Claims {
    pub user_id: u128,
    pub tenant_id: u128,
    pub email: String,
    pub role: UserRole,
    pub exp: i64,
}

/// The mathematical value of [`Claims`].
pub struct ClaimsView {
    pub user_id: u128,
    pub tenant_id: u128,
    pub email: Seq<char>,
    pub role: UserRole,
    pub exp: i64,
}

impl View for Claims {
    type V = ClaimsView;

    open spec fn view(&self) -> ClaimsView {
        ClaimsView {
            user_id: self.user_id,
            tenant_id: self.tenant_id,
            email: self.email@,
            role: self.role,
            exp: self.exp,
        }
    }
}

impl Clone for Claims {
    fn clone(&self) -> (copy: Claims)
        ensures
            copy@ == self@,
    {
        Claims {
            user_id: self.user_id,
            tenant_id: self.tenant_id,
            email: self.email.clone(),
            role: self.role,
            exp: self.exp,
        }
    }
}

impl ClaimsView {
    /// The payload of a token that states these claims: a flat JSON object of
    /// five members, the identifiers as UUID texts, the role by its name.
    pub open spec fn members(self) -> Map<Seq<char>, JsonMember> {
        no_members().insert("user_id"@, JsonMember::Text(uuid_text(self.user_id))).insert(
            "tenant_id"@,
            JsonMember::Text(uuid_text(self.tenant_id)),
        ).insert("email"@, JsonMember::Text(self.email)).insert(
            "role"@,
            JsonMember::Text(self.role.text()),
        ).insert("exp"@, JsonMember::Integer(self.exp))
    }

    /// The claims that a payload states: all five members must be there, of
    /// the right kind, the identifiers and the role readable. Further
    /// members are ignored.
    pub open spec fn read(members: Map<Seq<char>, JsonMember>) -> Option<ClaimsView> {
        if holds_some_text(members, "user_id"@) && holds_some_text(members, "tenant_id"@)
            && holds_some_text(members, "email"@) && holds_some_text(members, "role"@)
            && holds_some_integer(members, "exp"@) {
            match (
                uuid_value(members["user_id"@]->Text_0),
                uuid_value(members["tenant_id"@]->Text_0),
                UserRole::named(members["role"@]->Text_0),
            ) {
                (Some(user_id), Some(tenant_id), Some(role)) => Some(
                    ClaimsView {
                        user_id,
                        tenant_id,
                        email: members["email"@]->Text_0,
                        role,
                        exp: members["exp"@]->Integer_0,
                    },
                ),
                _ => None,
            }
        } else {
            None
        }
    }

    /// Whether the UUID texts of both identifiers read back as the
    /// identifiers. It holds of every text that the formatter has written.
    pub open spec fn ids_read_back(self) -> bool {
        uuid_value(uuid_text(self.user_id)) == Some(self.user_id) && uuid_value(
            uuid_text(self.tenant_id),
        ) == Some(self.tenant_id)
    }

    /// A payload written from claims states those claims, holds nothing
    /// but strings and integers, and names no audience.
    pub proof fn lemma_read_members(self)
        requires
            self.ids_read_back(),
        ensures
            Self::read(self.members()) == Some(self),
            all_plain(self.members()),
            !holds_some_text(self.members(), "aud"@),
    {
        reveal_strlit("aud");
        assert("aud"@.len() == 3);
        assert("aud"@[0] == 'a');
        reveal_strlit("user_id");
        reveal_strlit("tenant_id");
        reveal_strlit("email");
        reveal_strlit("role");
        reveal_strlit("exp");
        assert("user_id"@.len() == 7);
        assert("tenant_id"@.len() == 9);
        assert("email"@.len() == 5);
        assert("role"@.len() == 4);
        assert("exp"@.len() == 3);
        assert("exp"@[0] == 'e');
        self.role.lemma_named_text();
    }
}

/// What verifying `token` under `secret` at the second `now` comes to: the
/// claims it states, `InvalidToken` where it is no token signed with
/// `secret` or states no claims, `ExpiredToken` where its expiry has passed.
/// A token is good up to and including the second of its expiry.
pub open spec fn token_verdict(token: Seq<char>, secret: Seq<char>, now: i64) -> Result<
    ClaimsView,
    AuthError,
> {
    match signed_payload(token, secret) {
        None => Err(AuthError::InvalidToken),
        Some(members) => match ClaimsView::read(members) {
            None => Err(AuthError::InvalidToken),
            Some(claims) => if claims.exp < now {
                Err(AuthError::ExpiredToken)
            } else {
                Ok(claims)
            },
        },
    }
}

/// The second at which a token issued at `now` for `minutes` minutes lapses.
pub open spec fn expiry(now: i64, minutes: i64) -> int {
    now + 60 * minutes
}

/// Whether the expiry of a token issued at `now` for `minutes` minutes can
/// be written in 64 bits.
pub open spec fn expiry_fits(now: i64, minutes: i64) -> bool {
    i64::MIN <= expiry(now, minutes) <= i64::MAX
}

/// Whether a token may last `minutes` minutes from any second that the
/// clock can show: with so many minutes the expiry can always be written.
pub open spec fn lasting(minutes: i64) -> bool {
    -0x0200_0000_0000_0000 <= minutes <= 0x0200_0000_0000_0000
}

/// The claims that a token issued at the second `now` for `minutes` minutes
/// states.
pub open spec fn issued_claims(
    user_id: u128,
    tenant_id: u128,
    email: Seq<char>,
    role: UserRole,
    minutes: i64,
    now: i64,
) -> ClaimsView {
    ClaimsView { user_id, tenant_id, email, role, exp: expiry(now, minutes) as i64 }
}

/// Whether `token` is what issuing at the second `now` for `minutes` minutes
/// owes. The expiry can be written in 64 bits. The token is the one that
/// the signer makes of the five claims and `secret`, so equal arguments at
/// one second give the equal token; it has three parts; and its payload is
/// the five claims and nothing else. Under `secret` it verifies to exactly
/// these claims at every second up to its expiry and as expired at every
/// second after it.
pub open spec fn issued(
    token: Seq<char>,
    secret: Seq<char>,
    user_id: u128,
    tenant_id: u128,
    email: Seq<char>,
    role: UserRole,
    minutes: i64,
    now: i64,
) -> bool {
    let claims = issued_claims(user_id, tenant_id, email, role, minutes, now);
    &&& expiry_fits(now, minutes)
    &&& token == signed_token(claims.members(), secret)
    &&& three_parts(token)
    &&& signed_payload(token, secret) == Some(claims.members())
    &&& forall|at: i64| #[trigger]
        token_verdict(token, secret, at) == if at <= expiry(now, minutes) {
            Ok::<ClaimsView, AuthError>(claims)
        } else {
            Err::<ClaimsView, AuthError>(AuthError::ExpiredToken)
        }
}

/// Whether `result` is what issuing at the second `now` for `minutes`
/// minutes owes: a token as [`issued`] describes, exactly where the expiry
/// can be written in 64 bits, and `Internal` where it cannot.
pub open spec fn issuing(
    result: Result<String, AppError>,
    secret: Seq<char>,
    user_id: u128,
    tenant_id: u128,
    email: Seq<char>,
    role: UserRole,
    minutes: i64,
    now: i64,
) -> bool {
    match result {
        Ok(token) => issued(token@, secret, user_id, tenant_id, email, role, minutes, now),
        Err(error) => error == AppError::Internal && !expiry_fits(now, minutes),
    }
}

impl Claims {
    /// Writes the claims as the payload of a token.
    pub fn to_payload(&self) -> (payload: serde_json::Map<String, serde_json::Value>)
        ensures
            json_members(payload) == self@.members(),
            ClaimsView::read(self@.members()) == Some(self@),
            all_plain(self@.members()),
            !holds_some_text(self@.members(), "aud"@),
    {
        let user_id = format_uuid(self.user_id);
        let tenant_id = format_uuid(self.tenant_id);
        let mut payload = json_object();
        json_put_text(&mut payload, "user_id", user_id.as_str());
        json_put_text(&mut payload, "tenant_id", tenant_id.as_str());
        json_put_text(&mut payload, "email", self.email.as_str());
        json_put_text(&mut payload, "role", self.role.as_str());
        json_put_integer(&mut payload, "exp", self.exp);
        proof {
            self@.lemma_read_members();
        }
        payload
    }

    /// Reads the claims that a payload states.
    pub fn from_payload(payload: &serde_json::Map<String, serde_json::Value>) -> (claims: Option<
        Claims,
    >)
        ensures
            match claims {
                Some(read) => ClaimsView::read(json_members(*payload)) == Some(read@),
                None => ClaimsView::read(json_members(*payload)).is_none(),
            },
    {
        let user_text = json_text(payload, "user_id");
        let tenant_text = json_text(payload, "tenant_id");
        let email = json_text(payload, "email");
        let role_text = json_text(payload, "role");
        let exp = json_integer(payload, "exp");
        match (user_text, tenant_text, email, role_text, exp) {
            (Some(user_text), Some(tenant_text), Some(email), Some(role_text), Some(exp)) => {
                let user_id = parse_uuid(user_text.as_str());
                let tenant_id = parse_uuid(tenant_text.as_str());
                let role = UserRole::parse(role_text.as_str());
                match (user_id, tenant_id, role) {
                    (Some(user_id), Some(tenant_id), Some(role)) => Some(
                        Claims { user_id, tenant_id, email, role, exp },
                    ),
                    _ => None,
                }
            },
            _ => None,
        }
    }
}

/// A token that was issued verifies, under the secret it was issued with
/// and at any second up to its expiry, to exactly the identity it was
/// issued for.
pub proof fn lemma_issued_token_verifies(
    token: Seq<char>,
    secret: Seq<char>,
    user_id: u128,
    tenant_id: u128,
    email: Seq<char>,
    role: UserRole,
    minutes: i64,
    now: i64,
    at: i64,
)
    requires
        issued(token, secret, user_id, tenant_id, email, role, minutes, now),
        at <= expiry(now, minutes),
    ensures
        token_verdict(token, secret, at) == Ok::<ClaimsView, AuthError>(
            ClaimsView { user_id, tenant_id, email, role, exp: expiry(now, minutes) as i64 },
        ),
{
}

/// A token that was issued for a negative number of minutes is expired from
/// the second of its issue on.
pub proof fn lemma_token_issued_expired(
    token: Seq<char>,
    secret: Seq<char>,
    user_id: u128,
    tenant_id: u128,
    email: Seq<char>,
    role: UserRole,
    minutes: i64,
    now: i64,
    at: i64,
)
    requires
        issued(token, secret, user_id, tenant_id, email, role, minutes, now),
        minutes < 0,
        now <= at,
    ensures
        token_verdict(token, secret, at) == Err::<ClaimsView, AuthError>(AuthError::ExpiredToken),
{
}

/// Verifying reads nothing but the token, the secret and the second: a
/// token that verifies at one second verifies to the same claims at every
/// earlier one, and a token that is refused as invalid is so at every
/// second.
pub proof fn lemma_verdict_over_time(token: Seq<char>, secret: Seq<char>, at: i64, earlier: i64)
    requires
        earlier <= at,
    ensures
        token_verdict(token, secret, at) is Ok ==> token_verdict(token, secret, earlier)
            == token_verdict(token, secret, at),
        token_verdict(token, secret, at) == Err::<ClaimsView, AuthError>(AuthError::InvalidToken)
            <==> token_verdict(token, secret, earlier) == Err::<ClaimsView, AuthError>(
            AuthError::InvalidToken,
        ),
{
}

/// Issuing is deterministic at a fixed second: two tokens issued for the
/// same identity, secret, minutes and second are the same text.
pub proof fn lemma_issuing_is_deterministic(
    first: Seq<char>,
    second: Seq<char>,
    secret: Seq<char>,
    user_id: u128,
    tenant_id: u128,
    email: Seq<char>,
    role: UserRole,
    minutes: i64,
    now: i64,
)
    requires
        issued(first, secret, user_id, tenant_id, email, role, minutes, now),
        issued(second, secret, user_id, tenant_id, email, role, minutes, now),
    ensures
        first == second,
{
}

/// The payload of an issued token holds the five claims and no other
/// member: the identifiers, the address, the role and the expiry.
pub proof fn lemma_issued_payload_is_the_claims(
    token: Seq<char>,
    secret: Seq<char>,
    user_id: u128,
    tenant_id: u128,
    email: Seq<char>,
    role: UserRole,
    minutes: i64,
    now: i64,
)
    requires
        issued(token, secret, user_id, tenant_id, email, role, minutes, now),
    ensures
        signed_payload(token, secret) is Some,
        forall|name: Seq<char>| #[trigger]
            signed_payload(token, secret)->Some_0.dom().contains(name) <==> name == "user_id"@
                || name == "tenant_id"@ || name == "email"@ || name == "role"@ || name == "exp"@,
        signed_payload(token, secret)->Some_0["email"@] == JsonMember::Text(email),
        signed_payload(token, secret)->Some_0["role"@] == JsonMember::Text(role.text()),
        signed_payload(token, secret)->Some_0["exp"@] == JsonMember::Integer(
            expiry(now, minutes) as i64,
        ),
{
    reveal_strlit("user_id");
    reveal_strlit("tenant_id");
    reveal_strlit("email");
    reveal_strlit("role");
    reveal_strlit("exp");
    assert("user_id"@.len() == 7);
    assert("tenant_id"@.len() == 9);
    assert("email"@.len() == 5);
    assert("role"@.len() == 4);
    assert("exp"@.len() == 3);
}

/// At every second that the clock can show, the expiry of a token that
/// lasts no longer than [`lasting`] allows can be written in 64 bits: for
/// such a token issuing never fails.
pub proof fn lemma_lasting_fits(now: DateTimeString, minutes: i64)
    requires
        clock_reading(now),
        lasting(minutes),
    ensures
        expiry_fits(now.seconds, minutes),
{
}

} // verus!

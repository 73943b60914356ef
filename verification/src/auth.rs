//! Session tokens: claims with a role-dependent lifetime, issued as signed
//! bearer tokens and validated statelessly. Every failure of validation —
//! bad signature, malformed payload, or expiry — collapses into the single
//! `Unauthorized` outcome.

use vstd::prelude::*;

use crate::api::errors::ApiError;
use crate::errors::{Error, ErrorCode};
use crate::strings::str_eq;
use crate::user::entity::Role;

verus! {

/// Signing configuration captured once at startup: the symmetric secret and
/// the key identifier placed in the token header.
pub struct TokenKeys {
    pub secret: String,
    pub kid: String,
}

/// The token that signing a payload {id, role, iat, exp} under an HS512
/// header carrying `kid` produces with `secret`. Signing is deterministic,
/// so the token is a function of these arguments alone.
pub uninterp spec fn token_of(
    secret: Seq<char>,
    kid: Seq<char>,
    id: Seq<char>,
    role: Seq<char>,
    iat: int,
    exp: int,
) -> Seq<char>;

/// What verifying `token` against `secret` (with expiry checking left to the
/// caller) recovers: the payload fields {id, role, iat, exp}, or nothing when
/// the signature does not match or the payload is malformed.
pub uninterp spec fn decoded_payload(secret: Seq<char>, token: Seq<char>) -> Option<
    (Seq<char>, Seq<char>, int, int),
>;

/// Relies on jsonwebtoken::encode with HS512: the token is a deterministic
/// function of secret, header key id and payload, and jsonwebtoken::decode
/// with the same secret recovers exactly the payload fields.
#[verifier::external_body]
fn sign_payload(secret: &str, kid: &str, id: &str, role: &str, iat: i64, exp: i64) -> (r: Option<
    String,
>)
    ensures
        r matches Some(t) ==> t@ == token_of(secret@, kid@, id@, role@, iat as int, exp as int),
        r matches Some(t) ==> decoded_payload(secret@, t@) == Some(
            (id@, role@, iat as int, exp as int),
        ),
{
    let mut header = jsonwebtoken::Header::new(jsonwebtoken::Algorithm::HS512);
    header.kid = Some(kid.to_owned());
    let mut payload = serde_json::Map::new();
    payload.insert("id".to_owned(), serde_json::Value::from(id));
    payload.insert("role".to_owned(), serde_json::Value::from(role));
    payload.insert("iat".to_owned(), serde_json::Value::from(iat));
    payload.insert("exp".to_owned(), serde_json::Value::from(exp));
    let key = jsonwebtoken::EncodingKey::from_secret(secret.as_bytes());
    jsonwebtoken::encode(&header, &serde_json::Value::Object(payload), &key).ok()
}

/// Relies on jsonwebtoken::decode with HS512: with expiry checking disabled
/// it is a deterministic function of secret and token, verifies the signature
/// before handing the payload out, and fails on anything malformed.
#[verifier::external_body]
fn decode_payload(secret: &str, token: &str) -> (r: Option<(String, String, i64, i64)>)
    ensures
        r matches Some(t) ==> decoded_payload(secret@, token@) == Some(
            (t.0@, t.1@, t.2 as int, t.3 as int),
        ),
        r is None ==> decoded_payload(secret@, token@) is None,
{
    let mut validation = jsonwebtoken::Validation::new(jsonwebtoken::Algorithm::HS512);
    validation.validate_exp = false;
    validation.required_spec_claims = std::collections::HashSet::new();
    let key = jsonwebtoken::DecodingKey::from_secret(secret.as_bytes());
    let data = jsonwebtoken::decode::<serde_json::Value>(token, &key, &validation).ok()?;
    let id = data.claims.get("id")?.as_str()?.to_owned();
    let role = data.claims.get("role")?.as_str()?.to_owned();
    let iat = data.claims.get("iat")?.as_i64()?;
    let exp = data.claims.get("exp")?.as_i64()?;
    Some((id, role, iat, exp))
}

/// Relies on chrono's conversion from the system clock for the current
/// Unix timestamp; nothing is assumed about the value it returns. The
/// conversion maps a clock set before 1970 to a negative timestamp rather
/// than failing; callers that need a non-negative instant clamp it.
#[verifier::external_body]
pub(crate) fn current_timestamp() -> i64 {
    chrono::DateTime::<chrono::Utc>::from(std::time::SystemTime::now()).timestamp()
}

/// Session lifetime in seconds by role: elevated roles get the short one.
pub open spec fn ttl_of(role: Role) -> int {
    match role {
        Role::Admin => 1800,
        Role::User => 86400,
    }
}

/// The decoded, time-bounded identity assertion carried by a session token.
#[derive(Debug)]
pub struct Claims {
    pub id: String,
    pub role: Role,
    pub iat: i64,
    pub exp: i64,
}

/// The acceptance rule a payload must pass at time `now`: the role must be
/// one of the two known names and the expiry must lie strictly in the
/// future. Everything else is rejected.
pub open spec fn accepted_claims(
    payload: Option<(Seq<char>, Seq<char>, int, int)>,
    now: int,
) -> Option<(Seq<char>, Role, int, int)> {
    match payload {
        Some(p) => {
            if p.1 == Role::Admin.spec_name() && p.3 > now {
                Some((p.0, Role::Admin, p.2, p.3))
            } else if p.1 == Role::User.spec_name() && p.3 > now {
                Some((p.0, Role::User, p.2, p.3))
            } else {
                None
            }
        },
        None => None,
    }
}

impl Claims {
    /// Fresh claims for a subject: issued now, expiring after the lifetime
    /// the subject's role grants (30 minutes for admins, 1 day otherwise).
    pub fn new(username: String, role: Role) -> (r: Claims)
        ensures
            r.id == username,
            r.role == role,
            r.exp - r.iat == ttl_of(role),
            0 <= r.iat,
    {
        let now = current_timestamp();
        let iat: i64 = if now < 0 {
            0
        } else if now > i64::MAX - 86400 {
            i64::MAX - 86400
        } else {
            now
        };
        let exp: i64 = match role {
            Role::Admin => iat + 1800,
            Role::User => iat + 86400,
        };
        Claims { id: username, role, iat, exp }
    }

    /// The signed bearer token for these claims. Fails only when signing
    /// fails, and then with an internal error.
    pub fn jwt(&self, keys: &TokenKeys) -> (r: Result<String, Error>)
        ensures
            r matches Ok(t) ==> t@ == token_of(
                keys.secret@,
                keys.kid@,
                self.id@,
                self.role.spec_name(),
                self.iat as int,
                self.exp as int,
            ),
            r matches Ok(t) ==> decoded_payload(keys.secret@, t@) == Some(
                (self.id@, self.role.spec_name(), self.iat as int, self.exp as int),
            ),
            r matches Err(e) ==> e.code == ErrorCode::InternalError,
    {
        let role_name = self.role.name();
        match sign_payload(
            keys.secret.as_str(),
            keys.kid.as_str(),
            self.id.as_str(),
            role_name.as_str(),
            self.iat,
            self.exp,
        ) {
            Some(t) => Ok(t),
            None => Err(Error::new(ErrorCode::InternalError)),
        }
    }

    /// Validation of a bearer token at time `now`: exactly the payloads that
    /// pass `accepted_claims` yield claims, and every failure collapses into
    /// `Unauthorized`.
    pub fn validate(keys: &TokenKeys, token: &str, now: i64) -> (r: Result<Claims, ApiError>)
        ensures
            match accepted_claims(decoded_payload(keys.secret@, token@), now as int) {
                Some(a) => r matches Ok(c) && c.id@ == a.0 && c.role == a.1 && c.iat as int == a.2
                    && c.exp as int == a.3,
                None => r matches Err(e) && e is Unauthorized,
            },
    {
        match decode_payload(keys.secret.as_str(), token) {
            None => Err(ApiError::Unauthorized("Invalid or expired token".to_owned())),
            Some((id, role_name, iat, exp)) => {
                let role: Option<Role> = if str_eq(role_name.as_str(), "Admin") {
                    Some(Role::Admin)
                } else if str_eq(role_name.as_str(), "User") {
                    Some(Role::User)
                } else {
                    None
                };
                match role {
                    None => Err(ApiError::Unauthorized("Invalid or expired token".to_owned())),
                    Some(role) => {
                        if exp > now {
                            Ok(Claims { id, role, iat, exp })
                        } else {
                            Err(ApiError::Unauthorized("Invalid or expired token".to_owned()))
                        }
                    },
                }
            },
        }
    }
}

/// Round trip: a token that decodes to an issued payload — as `jwt` ensures
/// of every token it returns — is accepted by validation at any time before
/// its expiry, and yields the same subject and role.
pub proof fn lemma_issue_validate_round_trip(
    secret: Seq<char>,
    token: Seq<char>,
    id: Seq<char>,
    role: Role,
    iat: int,
    exp: int,
    now: int,
)
    requires
        decoded_payload(secret, token) == Some((id, role.spec_name(), iat, exp)),
        now < exp,
    ensures
        accepted_claims(decoded_payload(secret, token), now) == Some((id, role, iat, exp)),
{
    match role {
        Role::Admin => {
            assert(role.spec_name() == "Admin"@);
        },
        Role::User => {
            reveal_strlit("Admin");
            reveal_strlit("User");
            assert(("Admin"@).len() == 5);
            assert(("User"@).len() == 4);
            assert(role.spec_name() != "Admin"@);
        },
    }
}

/// Expiry: a payload whose expiry is not in the future is rejected whatever
/// its other fields hold, so a backdated token never validates.
pub proof fn lemma_expired_token_rejected(
    payload: Option<(Seq<char>, Seq<char>, int, int)>,
    now: int,
)
    requires
        payload matches Some(p) && p.3 <= now,
    ensures
        accepted_claims(payload, now) is None,
{
}

} // verus!

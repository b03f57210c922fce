//! Signed bearer credentials and request-time identity resolution.
//!
//! [`Auth`] is the claim set of a credential; issuing ([`Auth::token`]) and
//! verifying ([`decode_token`]) go through a symmetric signature (HS256)
//! under the process-wide secret. Verification checks trust only — a
//! well-signed but stale credential still decodes, because expiry policy
//! belongs to the resolver: [`resolve_identity`] turns an optional raw
//! `Authorization` header value into one of three identities
//! (authenticated, anonymous, rejected), applying expiry and the
//! public-board fallback.

use vstd::prelude::*;
use vstd::string::StrSliceExecFns;
use vstd::string::StringExecFns;

use crate::config::Config;
use crate::config::LOGIN_EXPIRE_SECONDS;

verus! {

/// The claims carried by a signed bearer credential.
pub struct Auth {
    /// Expiry timestamp, in seconds since the epoch.
    pub exp: i64,
    /// The subject's user id.
    pub id: i32,
    /// The subject's name, denormalized for convenience.
    pub username: String,
}

/// Mathematical view of [`Auth`].
pub struct AuthView {
    pub exp: int,
    pub id: int,
    pub username: Seq<char>,
}

impl View for Auth {
    type V = AuthView;

    open spec fn view(&self) -> AuthView {
        AuthView { exp: self.exp as int, id: self.id as int, username: self.username@ }
    }
}

/// The token string that signing the claims `(exp, id, username)` under
/// `secret` produces. The signer is deterministic: the same secret and
/// claims always give the same string.
pub uninterp spec fn token_of(secret: Seq<char>, exp: i64, id: i32, username: Seq<char>) -> Seq<char>;

/// The claims that verifying `token` under `secret` recovers: `None` for
/// anything malformed, badly signed, or of the wrong payload shape, and
/// `Some((exp, id, username))` otherwise. Verification reads no clock, so
/// the outcome is a function of secret and token alone; in particular it
/// does not reject stale claims.
pub uninterp spec fn claims_of(secret: Seq<char>, token: Seq<char>) -> Option<(i64, i32, Seq<char>)>;

/// Relies on `frank_jwt::encode` with `Algorithm::HS256`: the token is
/// built from the serialized `{exp, id, username}` payload and its HMAC
/// signature alone, so it is a deterministic function of secret and
/// claims; and `frank_jwt::decode` under the same secret accepts that
/// signature and parses the payload back to exactly these claims.
/// Signing is total on this path: serializing this payload cannot fail,
/// and HMAC-SHA256 signs any byte string under any key, the empty key
/// included — an error could only come from the signer's own machinery,
/// a fatal configuration fault, not a per-request condition.
#[verifier::external_body]
fn jwt_encode(secret: &str, exp: i64, id: i32, username: &str) -> (t: String)
    ensures
        t@ == token_of(secret@, exp, id, username@),
        claims_of(secret@, t@) == Some((exp, id, username@)),
{
    let mut payload = serde_json::Map::new();
    payload.insert("exp".to_string(), serde_json::Value::from(exp));
    payload.insert("id".to_string(), serde_json::Value::from(id));
    payload.insert("username".to_string(), serde_json::Value::from(username));
    frank_jwt::encode(
        serde_json::Value::Object(serde_json::Map::new()),
        &secret,
        &serde_json::Value::Object(payload),
        frank_jwt::Algorithm::HS256,
    )
    .unwrap()
}

/// Relies on `frank_jwt::decode` with `Algorithm::HS256` and
/// `ValidationOptions::dangerous()`: the signature is recomputed from the
/// token's own bytes and compared, expiry is not checked and no clock is
/// read, so the outcome is a deterministic function of secret and token.
/// Every malformed or badly signed input comes back as an error value,
/// never as a panic.
#[verifier::external_body]
fn jwt_decode(secret: &str, token: &str) -> (r: Option<(i64, i32, String)>)
    ensures
        r matches Some(c) ==> claims_of(secret@, token@) == Some((c.0, c.1, c.2@)),
        r is None ==> claims_of(secret@, token@) is None,
{
    let (_header, payload) = frank_jwt::decode(
        token,
        &secret,
        frank_jwt::Algorithm::HS256,
        &frank_jwt::ValidationOptions::dangerous(),
    )
    .ok()?;
    let exp = payload.get("exp")?.as_i64()?;
    let id = i32::try_from(payload.get("id")?.as_i64()?).ok()?;
    let username = payload.get("username")?.as_str()?.to_owned();
    Some((exp, id, username))
}

impl Auth {
    /// Fresh claims for a subject, expiring one fixed validity window
    /// after `now`.
    pub fn issue(now: i64, id: i32, username: String) -> (a: Auth)
        requires
            now + LOGIN_EXPIRE_SECONDS <= i64::MAX,
        ensures
            a.exp == now + LOGIN_EXPIRE_SECONDS,
            a.id == id,
            a.username == username,
    {
        Auth { exp: now + LOGIN_EXPIRE_SECONDS, id, username }
    }

    /// The signed token string for these claims; verifying it under the
    /// same secret recovers exactly them. Signing with a static secret
    /// cannot fail, so every call returns a token.
    pub fn token(&self, secret: &str) -> (t: String)
        ensures
            t@ == token_of(secret@, self.exp, self.id, self.username@),
            claims_of(secret@, t@) == Some((self.exp, self.id, self.username@)),
    {
        jwt_encode(secret, self.exp, self.id, self.username.as_str())
    }
}

/// Decode and verify a token string into its claims. Trust check only:
/// malformed encodings, bad signatures and wrong payload shapes all come
/// back as `None` — invalid tokens are expected traffic, not an error —
/// and stale claims are returned as they are, since expiry policy belongs
/// to [`resolve_identity`].
pub fn decode_token(secret: &str, token: &str) -> (r: Option<Auth>)
    ensures
        match claims_of(secret@, token@) {
            Some(c) => r matches Some(a) && a@ == (AuthView { exp: c.0 as int, id: c.1 as int, username: c.2 }),
            None => r is None,
        },
{
    match jwt_decode(secret, token) {
        Some((exp, id, username)) => Some(Auth { exp, id, username }),
        None => None,
    }
}

/// A request's resolved identity.
pub enum ResolvedIdentity {
    /// A well-signed, unexpired credential was presented.
    Authenticated { subject_id: i32, subject_name: String, expires_at: i64 },
    /// No usable credential, but the request may still be served: either
    /// the board is public, or a well-signed credential has gone stale and
    /// is downgraded rather than rejected.
    Anonymous,
    /// No usable credential and the board is not public; the transport
    /// layer surfaces this as if the route did not exist.
    Rejected,
}

/// Mathematical view of [`ResolvedIdentity`].
pub enum IdentityView {
    Authenticated { subject_id: int, subject_name: Seq<char>, expires_at: int },
    Anonymous,
    Rejected,
}

impl View for ResolvedIdentity {
    type V = IdentityView;

    open spec fn view(&self) -> IdentityView {
        match self {
            ResolvedIdentity::Authenticated { subject_id, subject_name, expires_at } => {
                IdentityView::Authenticated {
                    subject_id: *subject_id as int,
                    subject_name: subject_name@,
                    expires_at: *expires_at as int,
                }
            },
            ResolvedIdentity::Anonymous => IdentityView::Anonymous,
            ResolvedIdentity::Rejected => IdentityView::Rejected,
        }
    }
}

impl ResolvedIdentity {
    /// The subject id this identity acts as; the anonymous sentinel (and
    /// a rejected request) acts as id 0.
    pub open spec fn spec_subject_id(&self) -> i32 {
        match self {
            ResolvedIdentity::Authenticated { subject_id, .. } => *subject_id,
            _ => 0,
        }
    }

    /// The expiry this identity carries; the anonymous sentinel (and a
    /// rejected request) carries 0, which every logged-in check reads as
    /// "not signed in".
    pub open spec fn spec_expires_at(&self) -> i64 {
        match self {
            ResolvedIdentity::Authenticated { expires_at, .. } => *expires_at,
            _ => 0,
        }
    }

    /// The subject id this identity acts as.
    pub fn subject_id(&self) -> (r: i32)
        ensures
            r == self.spec_subject_id(),
    {
        match self {
            ResolvedIdentity::Authenticated { subject_id, .. } => *subject_id,
            _ => 0,
        }
    }

    /// The expiry this identity carries.
    pub fn expires_at(&self) -> (r: i64)
        ensures
            r == self.spec_expires_at(),
    {
        match self {
            ResolvedIdentity::Authenticated { expires_at, .. } => *expires_at,
            _ => 0,
        }
    }

    /// Whether a handler should treat this identity as signed in: a
    /// carried expiry of 0 — the anonymous sentinel — means it should
    /// not, even though the request may still be served.
    pub fn is_logged_in(&self) -> (r: bool)
        ensures
            r == (self.spec_expires_at() != 0),
    {
        self.expires_at() != 0
    }
}

/// The view of an optional raw header value.
pub open spec fn spec_header(header: Option<&str>) -> Option<Seq<char>> {
    match header {
        Some(h) => Some(h@),
        None => None,
    }
}

/// Whether a raw header value carries the fixed credential prefix.
pub open spec fn spec_has_prefix(h: Seq<char>) -> bool {
    h.len() >= 6 && h.subrange(0, 6) == "Token "@
}

/// The claims a raw header value resolves to: the header must be present,
/// carry the `"Token "` prefix, and the rest must verify. A missing
/// header, a foreign header shape and a bad token are deliberately
/// indistinguishable here.
pub open spec fn spec_header_claims(secret: Seq<char>, header: Option<Seq<char>>) -> Option<
    (i64, i32, Seq<char>),
> {
    match header {
        Some(h) => if spec_has_prefix(h) {
            claims_of(secret, h.skip(6))
        } else {
            None
        },
        None => None,
    }
}

/// The identity a request resolves to, given the secret, the public-board
/// flag, the raw header value and the current time:
/// no usable credential falls back to anonymous on a public board and is
/// rejected otherwise; a well-signed but stale credential is downgraded to
/// anonymous unconditionally; a well-signed, unexpired credential
/// authenticates its subject.
pub open spec fn spec_resolve(
    secret: Seq<char>,
    public_board: bool,
    header: Option<Seq<char>>,
    now: i64,
) -> IdentityView {
    match spec_header_claims(secret, header) {
        Some(c) => if c.0 < now {
            IdentityView::Anonymous
        } else {
            IdentityView::Authenticated { subject_id: c.1 as int, subject_name: c.2, expires_at: c.0 as int }
        },
        None => if public_board {
            IdentityView::Anonymous
        } else {
            IdentityView::Rejected
        },
    }
}

/// The token part of a raw header value: everything after the `"Token "`
/// prefix, or `None` when the prefix is absent.
fn strip_token_prefix(h: &str) -> (r: Option<&str>)
    ensures
        spec_has_prefix(h@) ==> (r matches Some(t) && t@ == h@.skip(6)),
        !spec_has_prefix(h@) ==> r is None,
{
    let n = h.unicode_len();
    if n < 6 {
        return None;
    }
    let prefix = h.substring_char(0, 6);
    if String::from_str(prefix) == String::from_str("Token ") {
        let rest = h.substring_char(6, n);
        proof {
            assert(rest@ =~= h@.skip(6));
        }
        Some(rest)
    } else {
        None
    }
}

/// Resolve the raw `Authorization` header value (or its absence) into the
/// identity the request is served under. This runs on every request and
/// reads nothing but its arguments.
pub fn resolve_identity(config: &Config, header: Option<&str>, now: i64) -> (r: ResolvedIdentity)
    ensures
        r@ == spec_resolve(config.secret_key@, config.public_board, spec_header(header), now),
{
    let token = match header {
        Some(h) => strip_token_prefix(h),
        None => None,
    };
    match token {
        Some(t) => match decode_token(config.secret_key.as_str(), t) {
            Some(auth) => {
                if auth.exp < now {
                    ResolvedIdentity::Anonymous
                } else {
                    ResolvedIdentity::Authenticated {
                        subject_id: auth.id,
                        subject_name: auth.username,
                        expires_at: auth.exp,
                    }
                }
            },
            None => {
                if config.public_board {
                    ResolvedIdentity::Anonymous
                } else {
                    ResolvedIdentity::Rejected
                }
            },
        },
        None => {
            if config.public_board {
                ResolvedIdentity::Anonymous
            } else {
                ResolvedIdentity::Rejected
            }
        },
    }
}

} // verus!


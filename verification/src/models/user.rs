//! User rows and the shapes they are served in.

use vstd::prelude::*;

use crate::auth::Auth;
use crate::auth::claims_of;
use crate::auth::token_of;
use crate::config::LOGIN_EXPIRE_SECONDS;

verus! {

/// A user row as the storage collaborator hands it over.
pub struct User {
    pub id: i32,
    pub username: String,
    pub email: String,
    pub bio: Option<String>,
    pub image: Option<String>,
    /// Password hash; never serialized out.
    pub hash: String,
}

/// A follower/followed edge.
pub struct Follow {
    pub follower: i32,
    pub followed: i32,
}

/// The signed-in shape of a user: the public fields together with a
/// freshly issued bearer token.
pub struct UserAuth {
    pub username: String,
    pub email: String,
    pub bio: Option<String>,
    pub image: Option<String>,
    pub token: String,
}

/// A user's own profile, seen by another user.
pub struct Profile {
    pub username: String,
    pub bio: Option<String>,
    pub image: Option<String>,
    pub following: bool,
}

/// A public profile, with the row id attached.
pub struct PubProfile {
    pub id: i32,
    pub username: String,
    pub bio: Option<String>,
    pub image: Option<String>,
    pub following: bool,
}

fn clone_opt_string(o: &Option<String>) -> (r: Option<String>)
    ensures
        r == *o,
{
    match o {
        Some(s) => Some(s.clone()),
        None => None,
    }
}

impl User {
    /// The signed-in shape of this user at time `now`: their public
    /// fields plus a freshly issued token. Verifying that token recovers
    /// exactly this user's id and name, with an expiry of `now` plus the
    /// fixed validity window — the window is set here, at issuance, and
    /// never extended in place; a refreshed session re-issues.
    pub fn to_user_auth(&self, secret: &str, now: i64) -> (ua: UserAuth)
        requires
            now + LOGIN_EXPIRE_SECONDS <= i64::MAX,
        ensures
            ua.username == self.username,
            ua.email == self.email,
            ua.bio == self.bio,
            ua.image == self.image,
            ua.token@ == token_of(
                secret@,
                (now + LOGIN_EXPIRE_SECONDS) as i64,
                self.id,
                self.username@,
            ),
            claims_of(secret@, ua.token@) == Some(
                ((now + LOGIN_EXPIRE_SECONDS) as i64, self.id, self.username@),
            ),
    {
        let auth = Auth::issue(now, self.id, self.username.clone());
        UserAuth {
            username: self.username.clone(),
            email: self.email.clone(),
            bio: clone_opt_string(&self.bio),
            image: clone_opt_string(&self.image),
            token: auth.token(secret),
        }
    }

    /// The profile this user presents to a viewer who does or does not
    /// follow them.
    pub fn to_profile(self, following: bool) -> (p: Profile)
        ensures
            p.username == self.username,
            p.bio == self.bio,
            p.image == self.image,
            p.following == following,
    {
        Profile { username: self.username, bio: self.bio, image: self.image, following }
    }
}

} // verus!

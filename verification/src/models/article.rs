//! Article rows and the shapes they are served in.
//!
//! Storage hands instants over as milliseconds since the epoch; when an
//! article is served, those instants are rendered as fixed-format UTC
//! date strings.

use vstd::prelude::*;

use crate::models::user::PubProfile;
use crate::models::user::User;

verus! {

/// Exclusive upper bound on the instants this crate renders as date
/// strings: the first millisecond of year 10000.
pub const TIMESTAMP_LIMIT: i64 = 253_402_300_800_000;

/// An article row as the storage collaborator hands it over.
pub struct Article {
    pub id: i32,
    pub slug: String,
    pub title: String,
    pub description: String,
    pub body: String,
    pub author: i32,
    pub tag_list: Vec<String>,
    /// Creation instant, in milliseconds since the epoch.
    pub created_at: i64,
    /// Last update instant, in milliseconds since the epoch.
    pub updated_at: i64,
    pub favorites_count: i32,
}

/// The date string a UTC instant (milliseconds since the epoch) renders
/// to, in the fixed `year-month-dayThour:minute:second.millisZ` shape.
pub uninterp spec fn formatted_utc(ms: i64) -> Seq<char>;

/// Relies on `chrono::DateTime::from_timestamp_millis` and `format`:
/// a UTC instant renders independently of clock, locale and time zone, so
/// the date string is a function of the millisecond count alone; and
/// every instant from the epoch up to year 10000 is in chrono's
/// representable range, so rendering it cannot fail.
#[verifier::external_body]
fn format_timestamp_millis(ms: i64) -> (r: Option<String>)
    ensures
        r matches Some(s) ==> s@ == formatted_utc(ms),
        0 <= ms < TIMESTAMP_LIMIT ==> r is Some,
{
    let dt = chrono::DateTime::<chrono::Utc>::from_timestamp_millis(ms)?;
    Some(dt.format("%Y-%m-%dT%H:%M:%S%.3fZ").to_string())
}

impl Article {
    /// Whether both instants of this row are renderable as date strings.
    /// Stored instants are epoch-based and never negative, and keeping
    /// them below year 10000 keeps the rendered four-digit-year shape
    /// fixed-width; the renderer accepts a far wider range, so this is a
    /// validity predicate of the row model, not a limit of the renderer.
    pub open spec fn renderable(&self) -> bool {
        &&& 0 <= self.created_at < TIMESTAMP_LIMIT
        &&& 0 <= self.updated_at < TIMESTAMP_LIMIT
    }

    /// This article in its served shape, with its author row and whether
    /// the viewer has favorited it.
    pub fn attach(self, author: User, favorited: bool) -> (j: ArticleJson)
        requires
            self.renderable(),
        ensures
            j.id == self.id,
            j.slug == self.slug,
            j.title == self.title,
            j.description == self.description,
            j.body == self.body,
            j.author == author,
            j.tag_list == self.tag_list,
            j.created_at@ == formatted_utc(self.created_at),
            j.updated_at@ == formatted_utc(self.updated_at),
            j.favorites_count == self.favorites_count,
            j.favorited == favorited,
    {
        ArticleJson {
            id: self.id,
            slug: self.slug,
            title: self.title,
            description: self.description,
            body: self.body,
            author,
            tag_list: self.tag_list,
            created_at: format_timestamp_millis(self.created_at).unwrap(),
            updated_at: format_timestamp_millis(self.updated_at).unwrap(),
            favorites_count: self.favorites_count,
            favorited,
        }
    }

    /// This article in its served shape, with the author reduced to a
    /// public profile that also says whether the viewer follows them.
    pub fn attach_profile(self, author: User, favorited: bool, following: bool) -> (j:
        ArticleProfileJson)
        requires
            self.renderable(),
        ensures
            j.id == self.id,
            j.slug == self.slug,
            j.title == self.title,
            j.description == self.description,
            j.body == self.body,
            j.author == (PubProfile {
                id: author.id,
                username: author.username,
                bio: author.bio,
                image: author.image,
                following,
            }),
            j.tag_list == self.tag_list,
            j.created_at@ == formatted_utc(self.created_at),
            j.updated_at@ == formatted_utc(self.updated_at),
            j.favorites_count == self.favorites_count,
            j.favorited == favorited,
    {
        ArticleProfileJson {
            id: self.id,
            slug: self.slug,
            title: self.title,
            description: self.description,
            body: self.body,
            author: PubProfile {
                id: author.id,
                bio: author.bio,
                username: author.username,
                following,
                image: author.image,
            },
            tag_list: self.tag_list,
            created_at: format_timestamp_millis(self.created_at).unwrap(),
            updated_at: format_timestamp_millis(self.updated_at).unwrap(),
            favorites_count: self.favorites_count,
            favorited,
        }
    }
}

/// An article as served, with the full author row attached.
pub struct ArticleJson {
    pub id: i32,
    pub slug: String,
    pub title: String,
    pub description: String,
    pub body: String,
    pub author: User,
    pub tag_list: Vec<String>,
    pub created_at: String,
    pub updated_at: String,
    pub favorites_count: i32,
    pub favorited: bool,
}

/// An article as served, with the author reduced to a public profile.
pub struct ArticleProfileJson {
    pub id: i32,
    pub slug: String,
    pub title: String,
    pub description: String,
    pub body: String,
    pub author: PubProfile,
    pub tag_list: Vec<String>,
    pub created_at: String,
    pub updated_at: String,
    pub favorites_count: i32,
    pub favorited: bool,
}

} // verus!

use realworld_warp::auth::decode_token;
use realworld_warp::config::LOGIN_EXPIRE_SECONDS;
use realworld_warp::models::article::Article;
use realworld_warp::models::user::{Follow, User};

const SECRET: &str = "secret123";
const NOW: i64 = 1_000_000_000;

fn user() -> User {
    User {
        id: 7,
        username: "alice".to_string(),
        email: "alice@example.com".to_string(),
        bio: Some("hello".to_string()),
        image: None,
        hash: "argon-hash".to_string(),
    }
}

fn article() -> Article {
    Article {
        id: 3,
        slug: "first-post".to_string(),
        title: "First post".to_string(),
        description: "about nothing".to_string(),
        body: "lorem ipsum".to_string(),
        author: 7,
        tag_list: vec!["intro".to_string(), "meta".to_string()],
        created_at: 0,
        updated_at: 1_700_000_000_123,
        favorites_count: 2,
    }
}

#[test]
fn to_profile_copies_fields() {
    let p = user().to_profile(true);
    assert_eq!(p.username, "alice");
    assert_eq!(p.bio, Some("hello".to_string()));
    assert_eq!(p.image, None);
    assert!(p.following);
}

#[test]
fn to_user_auth_issues_a_verifying_token() {
    let ua = user().to_user_auth(SECRET, NOW);
    assert_eq!(ua.username, "alice");
    assert_eq!(ua.email, "alice@example.com");
    assert_eq!(ua.bio, Some("hello".to_string()));
    assert_eq!(ua.image, None);
    let auth = decode_token(SECRET, &ua.token).expect("a fresh token must verify");
    assert_eq!(auth.id, 7);
    assert_eq!(auth.username, "alice");
    assert_eq!(auth.exp, NOW + LOGIN_EXPIRE_SECONDS);
}

#[test]
fn attach_formats_dates() {
    let j = article().attach(user(), true);
    assert_eq!(j.id, 3);
    assert_eq!(j.slug, "first-post");
    assert_eq!(j.title, "First post");
    assert_eq!(j.description, "about nothing");
    assert_eq!(j.body, "lorem ipsum");
    assert_eq!(j.author.id, 7);
    assert_eq!(j.tag_list, vec!["intro".to_string(), "meta".to_string()]);
    assert_eq!(j.created_at, "1970-01-01T00:00:00.000Z");
    assert_eq!(j.updated_at, "2023-11-14T22:13:20.123Z");
    assert_eq!(j.favorites_count, 2);
    assert!(j.favorited);
}

#[test]
fn attach_profile_reduces_author() {
    let j = article().attach_profile(user(), false, true);
    assert_eq!(j.author.id, 7);
    assert_eq!(j.author.username, "alice");
    assert_eq!(j.author.bio, Some("hello".to_string()));
    assert_eq!(j.author.image, None);
    assert!(j.author.following);
    assert!(!j.favorited);
    assert_eq!(j.created_at, "1970-01-01T00:00:00.000Z");
}

#[test]
fn follow_edge_holds_both_ends() {
    let f = Follow { follower: 7, followed: 9 };
    assert_eq!(f.follower, 7);
    assert_eq!(f.followed, 9);
}

use realworld_warp::auth::{decode_token, resolve_identity, Auth, ResolvedIdentity};
use realworld_warp::config::{Config, LOGIN_EXPIRE_SECONDS};

const SECRET: &str = "secret123";
const NOW: i64 = 1_000_000_000;

fn config(public_board: bool) -> Config {
    Config {
        server_name: "Mute Server".to_string(),
        web_url: "localhost:8000".to_string(),
        database_url: "postgres://localhost/blog".to_string(),
        secret_key: SECRET.to_string(),
        public_board,
    }
}

fn fresh_token(id: i32, username: &str) -> String {
    Auth::issue(NOW, id, username.to_string()).token(SECRET)
}

#[test]
fn issue_then_verify_roundtrip() {
    let token = fresh_token(7, "alice");
    let auth = decode_token(SECRET, &token).expect("a freshly issued token must verify");
    assert_eq!(auth.id, 7);
    assert_eq!(auth.username, "alice");
    assert_eq!(auth.exp, NOW + LOGIN_EXPIRE_SECONDS);
}

#[test]
fn reissue_reproduces_claims() {
    let token = fresh_token(7, "alice");
    let auth = decode_token(SECRET, &token).unwrap();
    let reissued = Auth { exp: auth.exp, id: auth.id, username: auth.username.clone() }
        .token(SECRET);
    assert_eq!(reissued, token);
    let again = decode_token(SECRET, &reissued).unwrap();
    assert_eq!(again.exp, auth.exp);
    assert_eq!(again.id, auth.id);
    assert_eq!(again.username, auth.username);
}

#[test]
fn tampered_token_rejected() {
    let token = fresh_token(7, "alice");
    let mut tampered: String = token[..token.len() - 1].to_string();
    let last = token.chars().last().unwrap();
    tampered.push(if last == 'A' { 'B' } else { 'A' });
    assert!(decode_token(SECRET, &tampered).is_none());
}

#[test]
fn payload_swap_rejected() {
    let token7 = fresh_token(7, "alice");
    let token8 = fresh_token(8, "alice");
    let signature7 = token7.rsplit('.').next().unwrap();
    let body8 = &token8[..token8.rfind('.').unwrap()];
    let spliced = format!("{}.{}", body8, signature7);
    assert!(decode_token(SECRET, &spliced).is_none());
}

#[test]
fn wrong_secret_rejected() {
    let token = fresh_token(7, "alice");
    assert!(decode_token("othersecret", &token).is_none());
}

#[test]
fn malformed_strings_rejected() {
    for junk in ["", "garbage", "a.b.c", "..", "Token ", "h\u{e9}llo\u{1f980}"] {
        assert!(decode_token(SECRET, junk).is_none());
        // resolution over the same junk must not raise either
        let header = format!("Token {}", junk);
        resolve_identity(&config(true), Some(&header), NOW);
        resolve_identity(&config(false), Some(&header), NOW);
    }
}

#[test]
fn no_header_private_board_rejected() {
    let r = resolve_identity(&config(false), None, NOW);
    assert!(matches!(r, ResolvedIdentity::Rejected));
}

#[test]
fn no_header_public_board_anonymous() {
    let r = resolve_identity(&config(true), None, NOW);
    assert!(matches!(r, ResolvedIdentity::Anonymous));
    assert_eq!(r.subject_id(), 0);
    assert_eq!(r.expires_at(), 0);
    assert!(!r.is_logged_in());
}

#[test]
fn valid_token_authenticates_on_either_board() {
    let header = format!("Token {}", fresh_token(7, "alice"));
    for public_board in [false, true] {
        let r = resolve_identity(&config(public_board), Some(&header), NOW);
        match r {
            ResolvedIdentity::Authenticated { subject_id, ref subject_name, expires_at } => {
                assert_eq!(subject_id, 7);
                assert_eq!(subject_name, "alice");
                assert_eq!(expires_at, NOW + LOGIN_EXPIRE_SECONDS);
            }
            _ => panic!("a valid unexpired token must authenticate"),
        }
        assert!(r.is_logged_in());
        assert_eq!(r.subject_id(), 7);
    }
}

#[test]
fn expired_token_downgrades_on_either_board() {
    let token = Auth { exp: NOW - 1, id: 7, username: "alice".to_string() }.token(SECRET);
    let header = format!("Token {}", token);
    for public_board in [false, true] {
        let r = resolve_identity(&config(public_board), Some(&header), NOW);
        assert!(matches!(r, ResolvedIdentity::Anonymous));
        assert_eq!(r.subject_id(), 0);
        assert_eq!(r.expires_at(), 0);
        assert!(!r.is_logged_in());
    }
}

#[test]
fn token_expiring_now_still_authenticates() {
    // the downgrade fires only when the expiry lies strictly in the past
    let token = Auth { exp: NOW, id: 7, username: "alice".to_string() }.token(SECRET);
    let header = format!("Token {}", token);
    let r = resolve_identity(&config(false), Some(&header), NOW);
    assert!(matches!(r, ResolvedIdentity::Authenticated { .. }));
}

#[test]
fn missing_prefix_treated_as_no_header() {
    let token = fresh_token(7, "alice");
    for header in [format!("Bearer {}", token), token.clone(), "token ".to_string() + &token] {
        let r = resolve_identity(&config(false), Some(&header), NOW);
        assert!(matches!(r, ResolvedIdentity::Rejected));
        let r = resolve_identity(&config(true), Some(&header), NOW);
        assert!(matches!(r, ResolvedIdentity::Anonymous));
    }
}

#[test]
fn invalid_token_treated_as_no_header() {
    let r = resolve_identity(&config(false), Some("Token notatoken"), NOW);
    assert!(matches!(r, ResolvedIdentity::Rejected));
    let r = resolve_identity(&config(true), Some("Token notatoken"), NOW);
    assert!(matches!(r, ResolvedIdentity::Anonymous));
}

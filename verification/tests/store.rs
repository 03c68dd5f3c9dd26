use orvane_auth::crypto::hash_string;
use orvane_auth::crypto::hash_token;
use orvane_auth::database::DatabaseLayer;
use orvane_auth::database::DbError;
use orvane_auth::database::email_verification::EmailVerificationQuery;
use orvane_auth::database::password_reset_request::PasswordResetRequestQuery;
use orvane_auth::database::session::SessionQuery;
use orvane_auth::database::user::UserQuery;

const NOW: u64 = 1_700_000_000;

#[test]
fn user_create_and_get() {
    let mut users = UserQuery::new();
    assert!(!users.check_if_exists(String::from("a@b.com")));
    let user = users
        .create(String::from("a@b.com"), String::from("hash"), NOW)
        .unwrap();
    assert_eq!(user.email, "a@b.com");
    assert!(!user.email_verified);
    assert_eq!(user.created_at, NOW);
    assert_eq!(user.id.len(), 32);
    assert!(users.check_if_exists(String::from("a@b.com")));
    let fetched = users.get(String::from("a@b.com")).unwrap();
    assert_eq!(fetched.id, user.id);
    assert!(matches!(
        users.get(String::from("other@b.com")),
        Err(DbError::NotFound)
    ));
}

#[test]
fn user_create_refuses_taken_email() {
    let mut users = UserQuery::new();
    users
        .create(String::from("a@b.com"), String::from("h1"), NOW)
        .unwrap();
    let second = users.create(String::from("a@b.com"), String::from("h2"), NOW);
    assert!(matches!(second, Err(DbError::Conflict)));
    assert_eq!(users.users.len(), 1);
}

#[test]
fn verify_user_sets_flag_once() {
    let mut users = UserQuery::new();
    let user = users
        .create(String::from("a@b.com"), String::from("h"), NOW)
        .unwrap();
    let verified = users.verify_user(user.id.clone()).unwrap();
    assert!(verified.email_verified);
    assert!(matches!(
        users.verify_user(user.id.clone()),
        Err(DbError::Conflict)
    ));
    assert!(matches!(
        users.verify_user(String::from("missing")),
        Err(DbError::NotFound)
    ));
}

#[test]
fn verification_supersede_leaves_exactly_one_live_record() {
    let mut table = EmailVerificationQuery::new();
    let first = table
        .create(
            hash_string(String::from("111111")),
            String::from("a@b.com"),
            String::from("user-1"),
            NOW,
        )
        .unwrap();
    let second = table
        .create(
            hash_string(String::from("222222")),
            String::from("a@b.com"),
            String::from("user-1"),
            NOW + 10,
        )
        .unwrap();
    assert_eq!(table.records.len(), 1);
    let live = table.get(String::from("user-1")).unwrap();
    assert_eq!(live.id, second.id);
    assert_eq!(live.code, hash_string(String::from("222222")));
    // The superseded challenge is gone: its identifier finds nothing.
    assert!(matches!(table.remove(first.id), Err(DbError::NotFound)));
    assert_eq!(table.records.len(), 1);
}

#[test]
fn verification_is_single_use() {
    let mut table = EmailVerificationQuery::new();
    let v = table
        .create(
            hash_string(String::from("123456")),
            String::from("a@b.com"),
            String::from("user-1"),
            NOW,
        )
        .unwrap();
    assert_eq!(v.expires_at, NOW + 300);
    assert!(table.remove(v.id.clone()).is_ok());
    assert!(matches!(table.remove(v.id), Err(DbError::NotFound)));
    assert!(matches!(
        table.get(String::from("user-1")),
        Err(DbError::NotFound)
    ));
}

#[test]
fn session_identifier_is_the_token_hash() {
    let mut sessions = SessionQuery::new();
    let (session, token) = sessions
        .create(String::from("user-1"), true, NOW)
        .unwrap();
    assert_eq!(token.len(), 32);
    assert_eq!(session.id.len(), 64);
    assert_ne!(session.id, token);
    assert_eq!(hash_token(&token), session.id);
    assert!(session.authorized);
    assert_eq!(session.expires_at, NOW + 2_592_000);
    let (unauthorized, _) = sessions
        .create(String::from("user-1"), false, NOW)
        .unwrap();
    assert_eq!(unauthorized.expires_at, NOW + 43_200);
}

#[test]
fn invalidate_all_removes_only_that_users_sessions() {
    let mut sessions = SessionQuery::new();
    sessions.create(String::from("user-1"), false, NOW).unwrap();
    sessions.create(String::from("user-1"), true, NOW).unwrap();
    sessions.create(String::from("user-2"), true, NOW).unwrap();
    assert_eq!(sessions.invalidate_all(String::from("user-1")), 2);
    assert_eq!(sessions.sessions.len(), 1);
    assert_eq!(sessions.sessions[0].user_id, "user-2");
    // Nothing left to invalidate is a no-op success, not an error.
    assert_eq!(sessions.invalidate_all(String::from("user-1")), 0);
}

#[test]
fn reset_request_supersede_and_lookup_by_reference() {
    let mut table = PasswordResetRequestQuery::new();
    let first = table.create(String::from("user-1"), NOW).unwrap();
    let second = table.create(String::from("user-1"), NOW + 5).unwrap();
    assert_eq!(table.records.len(), 1);
    assert_eq!(second.expires_at, NOW + 5 + 3600);
    let reference = hash_string(second.id.clone());
    let found = table.get_by_reference(&reference).unwrap();
    assert_eq!(found.id, second.id);
    let stale_reference = hash_string(first.id.clone());
    assert!(matches!(
        table.get_by_reference(&stale_reference),
        Err(DbError::NotFound)
    ));
    assert!(table.remove(second.id.clone()).is_ok());
    assert!(matches!(table.remove(second.id), Err(DbError::NotFound)));
}

#[test]
fn empty_store_is_empty() {
    let db = DatabaseLayer::new();
    assert_eq!(db.user.users.len(), 0);
    assert_eq!(db.email_verification.records.len(), 0);
    assert_eq!(db.password_reset_request.records.len(), 0);
    assert_eq!(db.session.sessions.len(), 0);
}

use blog_posts::error::AppError;
use blog_posts::model::{Session, User};
use blog_posts::session_repository::SessionRepository;
use blog_posts::user_repository::UserRepository;
use blog_posts::user_service::UserService;

fn users_with(names: &[(&str, &str)]) -> UserRepository {
    let mut repo = UserRepository::new();
    for (name, pw) in names {
        let hash = bcrypt::hash(pw, 4).unwrap();
        repo.create_new_user(User { username: name.to_string(), password: hash, avatar: None, joined: 738000 })
            .unwrap();
    }
    repo
}

fn session(id: &str, name: &str) -> Session {
    Session { session_id: id.to_string(), username: name.to_string() }
}

#[test]
fn add_session_replaces_the_users_earlier_session() {
    let users = users_with(&[("alice", "a"), ("bob", "b")]);
    let mut sessions = SessionRepository::new();
    sessions.add_session(session("t1", "alice")).unwrap();
    sessions.add_session(session("t2", "bob")).unwrap();
    sessions.add_session(session("t3", "alice")).unwrap();
    assert!(sessions.get_user_by_session("t1", &users).is_none());
    assert_eq!(sessions.get_user_by_session("t2", &users).unwrap().username, "bob");
    assert_eq!(sessions.get_user_by_session("t3", &users).unwrap().username, "alice");
}

#[test]
fn add_session_refuses_a_token_of_another_user() {
    let users = users_with(&[("alice", "a"), ("bob", "b")]);
    let mut sessions = SessionRepository::new();
    sessions.add_session(session("t1", "bob")).unwrap();
    sessions.add_session(session("t2", "alice")).unwrap();
    assert!(matches!(sessions.add_session(session("t1", "alice")), Err(AppError::StorageError(_))));
    assert_eq!(sessions.get_user_by_session("t1", &users).unwrap().username, "bob");
    assert_eq!(sessions.get_user_by_session("t2", &users).unwrap().username, "alice");
}

#[test]
fn add_session_refuses_the_users_own_live_token() {
    let users = users_with(&[("alice", "a")]);
    let mut sessions = SessionRepository::new();
    sessions.add_session(session("t1", "alice")).unwrap();
    assert!(matches!(sessions.add_session(session("t1", "alice")), Err(AppError::StorageError(_))));
    assert_eq!(sessions.get_user_by_session("t1", &users).unwrap().username, "alice");
}

#[test]
fn delete_session_is_idempotent() {
    let users = users_with(&[("alice", "a")]);
    let mut sessions = SessionRepository::new();
    sessions.add_session(session("t1", "alice")).unwrap();
    sessions.delete_session("t1");
    assert!(sessions.get_user_by_session("t1", &users).is_none());
    sessions.delete_session("t1");
    sessions.delete_session("never");
    assert!(sessions.get_user_by_session("t1", &users).is_none());
}

#[test]
fn login_issues_a_token_that_resolves() {
    let mut svc = UserService::new(users_with(&[("alice", "pw")]), SessionRepository::new());
    let token = svc.login("alice", "pw").unwrap();
    assert_eq!(token.len(), 36);
    assert_eq!(svc.get_user_by_session(&token).unwrap().username, "alice");
}

#[test]
fn second_login_invalidates_the_first_token() {
    let mut svc = UserService::new(users_with(&[("alice", "pw")]), SessionRepository::new());
    let first = svc.login("alice", "pw").unwrap();
    let second = svc.login("alice", "pw").unwrap();
    assert_ne!(first, second);
    assert!(svc.get_user_by_session(&first).is_none());
    assert_eq!(svc.get_user_by_session(&second).unwrap().username, "alice");
}

#[test]
fn login_with_bad_credentials_fails() {
    let mut svc = UserService::new(users_with(&[("alice", "pw")]), SessionRepository::new());
    assert!(matches!(svc.login("alice", "wrong"), Err(AppError::LoginError)));
    assert!(matches!(svc.login("nobody", "pw"), Err(AppError::LoginError)));
}

#[test]
fn login_against_a_malformed_hash_is_a_hashing_error() {
    let mut repo = UserRepository::new();
    repo.create_new_user(User { username: "alice".to_string(), password: "not-a-hash".to_string(), avatar: None, joined: 1 })
        .unwrap();
    let mut svc = UserService::new(repo, SessionRepository::new());
    assert!(matches!(svc.login("alice", "pw"), Err(AppError::HashingError(_))));
}

#[test]
fn logout_makes_the_token_unresolvable() {
    let mut svc = UserService::new(users_with(&[("alice", "pw")]), SessionRepository::new());
    let token = svc.login("alice", "pw").unwrap();
    svc.logout(&token);
    assert!(svc.get_user_by_session(&token).is_none());
    svc.logout(&token);
    assert!(svc.get_user_by_session(&token).is_none());
}

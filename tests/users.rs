use blog_posts::error::AppError;
use blog_posts::model::{UpdateUser, User};
use blog_posts::session_repository::SessionRepository;
use blog_posts::user_repository::UserRepository;
use blog_posts::user_service::UserService;

fn user(name: &str, hash: &str) -> User {
    User { username: name.to_string(), password: hash.to_string(), avatar: None, joined: 738000 }
}

fn empty_service() -> UserService {
    UserService::new(UserRepository::new(), SessionRepository::new())
}

#[test]
fn username_rules() {
    assert!(UserRepository::is_correct_username("alice_01"));
    assert!(UserRepository::is_correct_username("Z"));
    assert!(!UserRepository::is_correct_username(""));
    assert!(!UserRepository::is_correct_username("al-ice"));
    assert!(!UserRepository::is_correct_username("al ice"));
    assert!(!UserRepository::is_correct_username("émile"));
}

#[test]
fn create_then_lookup_keeps_the_record() {
    let mut repo = UserRepository::new();
    assert!(repo.create_new_user(user("alice", "h1")).is_ok());
    let found = repo.get_user_by_username("alice").unwrap();
    assert_eq!(found.username, "alice");
    assert_eq!(found.password, "h1");
    assert!(repo.get_user_by_username("bob").is_none());
}

#[test]
fn repository_rejects_invalid_and_duplicate_names() {
    let mut repo = UserRepository::new();
    assert!(matches!(repo.create_new_user(user("", "h")), Err(AppError::InvalidUsername)));
    assert!(matches!(repo.create_new_user(user("a/b", "h")), Err(AppError::InvalidUsername)));
    assert!(repo.create_new_user(user("alice", "h1")).is_ok());
    assert!(matches!(repo.create_new_user(user("alice", "h2")), Err(AppError::DuplicateUsername)));
    assert_eq!(repo.get_user_by_username("alice").unwrap().password, "h1");
    assert_eq!(repo.fetch_all_users().len(), 1);
}

#[test]
fn update_user_sets_only_given_fields() {
    let mut repo = UserRepository::new();
    repo.create_new_user(user("alice", "h1")).unwrap();
    repo.create_new_user(user("bob", "h2")).unwrap();
    let upd = UpdateUser { username: Some("alice".to_string()), password: None, avatar: Some(vec![1, 2, 3]) };
    assert!(repo.update_user(upd).is_ok());
    let a = repo.get_user_by_username("alice").unwrap();
    assert_eq!(a.avatar, Some(vec![1, 2, 3]));
    assert_eq!(a.password, "h1");
    assert_eq!(repo.get_user_by_username("bob").unwrap().avatar, None);
    let missing = UpdateUser { username: Some("carol".to_string()), password: None, avatar: Some(vec![9]) };
    assert!(matches!(repo.update_user(missing), Err(AppError::NotFoundError(_))));
    let nameless = UpdateUser { username: None, password: Some("x".to_string()), avatar: None };
    assert!(matches!(repo.update_user(nameless), Err(AppError::NotFoundError(_))));
}

#[test]
fn signup_stores_a_hash_that_verifies_the_password() {
    let mut svc = empty_service();
    assert!(svc.create_user("alice", "s3cret").is_ok());
    let u = svc.get_user_by_username("alice").unwrap();
    assert_eq!(u.username, "alice");
    assert_ne!(u.password, "s3cret");
    assert!(bcrypt::verify("s3cret", &u.password).unwrap());
    assert!(matches!(svc.verify_password("alice", "s3cret"), Ok(true)));
    assert!(matches!(svc.verify_password("alice", "s3cret!"), Ok(false)));
    assert!(matches!(svc.verify_password("alice", ""), Ok(false)));
    assert!(u.avatar.is_none());
    assert!(u.joined > 738000);
}

#[test]
fn signup_with_taken_name_fails_and_keeps_the_record() {
    let mut repo = UserRepository::new();
    repo.create_new_user(user("alice", "h1")).unwrap();
    let mut svc = UserService::new(repo, SessionRepository::new());
    assert!(matches!(svc.create_user("alice", "other"), Err(AppError::DuplicateUsername)));
    assert_eq!(svc.get_user_by_username("alice").unwrap().password, "h1");
    assert_eq!(svc.get_users().len(), 1);
}

#[test]
fn signup_with_invalid_name_fails() {
    let mut svc = empty_service();
    assert!(matches!(svc.create_user("", "pw"), Err(AppError::InvalidUsername)));
    assert!(matches!(svc.create_user("bad name", "pw"), Err(AppError::InvalidUsername)));
    assert!(svc.get_users().is_empty());
}

#[test]
fn avatar_update_and_fetch() {
    let mut repo = UserRepository::new();
    repo.create_new_user(user("alice", "h1")).unwrap();
    let mut svc = UserService::new(repo, SessionRepository::new());
    assert_eq!(svc.get_user_avatar("alice"), None);
    assert!(svc.update_user_avatar("alice", vec![7, 8]).is_ok());
    assert_eq!(svc.get_user_avatar("alice"), Some(vec![7, 8]));
    assert!(matches!(svc.update_user_avatar("nobody", vec![1]), Err(AppError::NotFoundError(_))));
    assert_eq!(svc.get_user_avatar("nobody"), None);
}

#[test]
fn verify_password_accepts_only_the_original() {
    let mut repo = UserRepository::new();
    repo.create_new_user(user("alice", &bcrypt::hash("s3cret", 4).unwrap())).unwrap();
    repo.create_new_user(user("broken", "not-a-hash")).unwrap();
    let svc = UserService::new(repo, SessionRepository::new());
    assert!(matches!(svc.verify_password("alice", "s3cret"), Ok(true)));
    assert!(matches!(svc.verify_password("alice", "S3cret"), Ok(false)));
    assert!(matches!(svc.verify_password("alice", ""), Ok(false)));
    assert!(matches!(svc.verify_password("nobody", "s3cret"), Err(AppError::NotFoundError(_))));
    assert!(matches!(svc.verify_password("broken", "x"), Err(AppError::HashingError(_))));
}

#[test]
fn passwords_agreeing_on_the_first_72_bytes_share_a_hash() {
    let long = "a".repeat(72);
    let mut repo = UserRepository::new();
    repo.create_new_user(user("alice", &bcrypt::hash(&long, 4).unwrap())).unwrap();
    let svc = UserService::new(repo, SessionRepository::new());
    assert!(matches!(svc.verify_password("alice", &format!("{}b", long)), Ok(true)));
}

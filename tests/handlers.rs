use blog_posts::controller::{
    create_post, delete_user_post, get_post, get_post_image, get_posts_on_page, get_user_avatar,
    get_user_with_posts, login_user, logout_user, signup_user, update_user, validate_session,
    AppState,
};
use blog_posts::error::AppError;
use blog_posts::model::{AuthForm, User};
use blog_posts::pagination::UNBOUNDED_PAGE_SIZE;
use blog_posts::post_repository::PostRepository;
use blog_posts::post_service::PostService;
use blog_posts::session_repository::SessionRepository;
use blog_posts::user_repository::UserRepository;
use blog_posts::user_service::UserService;

fn state_with(names: &[&str]) -> AppState {
    let mut users = UserRepository::new();
    for name in names {
        let hash = bcrypt::hash("pw", 4).unwrap();
        users
            .create_new_user(User { username: name.to_string(), password: hash, avatar: None, joined: 738000 })
            .unwrap();
    }
    AppState::new(
        UserService::new(users, SessionRepository::new()),
        PostService::new(PostRepository::new()),
    )
}

fn form(name: &str, pw: &str) -> AuthForm {
    AuthForm { username: name.to_string(), password: pw.to_string() }
}

fn post_as(state: &mut AppState, token: &str, title: &str) {
    create_post(state, Some(token), title.to_string(), "body".to_string(), None).unwrap();
}

#[test]
fn login_validate_and_logout_flow() {
    let mut state = state_with(&["alice"]);
    let token = login_user(&mut state, &form("alice", "pw")).unwrap();
    assert_eq!(validate_session(&state, Some(&token)).unwrap().username, "alice");
    assert!(logout_user(&mut state, Some(&token)).is_ok());
    assert!(matches!(validate_session(&state, Some(&token)), Err(AppError::Unauthenticated)));
    assert!(logout_user(&mut state, Some(&token)).is_ok());
    assert!(matches!(logout_user(&mut state, None), Err(AppError::Unauthenticated)));
    assert!(matches!(validate_session(&state, None), Err(AppError::Unauthenticated)));
}

#[test]
fn login_with_wrong_password_is_a_login_error() {
    let mut state = state_with(&["alice"]);
    let err = login_user(&mut state, &form("alice", "nope")).unwrap_err();
    assert!(matches!(err, AppError::LoginError));
    assert_eq!(err.status_code(), 401);
}

#[test]
fn signup_then_login() {
    let mut state = state_with(&[]);
    assert!(signup_user(&mut state, &form("new_user", "pw")).is_ok());
    let err = signup_user(&mut state, &form("new_user", "pw2")).unwrap_err();
    assert!(matches!(err, AppError::DuplicateUsername));
    assert_eq!(err.status_code(), 409);
    assert!(matches!(signup_user(&mut state, &form("", "pw")), Err(AppError::InvalidUsername)));
}

#[test]
fn creating_a_post_needs_a_live_session() {
    let mut state = state_with(&["alice"]);
    let r = create_post(&mut state, None, "t".to_string(), "b".to_string(), None);
    assert!(matches!(r, Err(AppError::Unauthenticated)));
    let r = create_post(&mut state, Some("bogus"), "t".to_string(), "b".to_string(), None);
    assert!(matches!(r, Err(AppError::Unauthenticated)));
    assert!(get_posts_on_page(&state, None).unwrap().is_empty());
}

#[test]
fn post_without_image_has_no_image_to_fetch() {
    let mut state = state_with(&["alice"]);
    let token = login_user(&mut state, &form("alice", "pw")).unwrap();
    create_post(&mut state, Some(&token), "plain".to_string(), "b".to_string(), None).unwrap();
    create_post(&mut state, Some(&token), "empty".to_string(), "b".to_string(), Some(vec![])).unwrap();
    create_post(&mut state, Some(&token), "pic".to_string(), "b".to_string(), Some(vec![137, 80])).unwrap();
    let feed = get_posts_on_page(&state, Some(1)).unwrap();
    assert_eq!(feed.len(), 3);
    for p in &feed {
        let img = get_post_image(&state, p.id);
        if p.title == "pic" {
            assert_eq!(img.unwrap(), vec![137, 80]);
        } else {
            let err = img.unwrap_err();
            assert!(matches!(err, AppError::NotFoundError(_)));
            assert_eq!(err.status_code(), 404);
        }
    }
    assert!(matches!(get_post_image(&state, 999), Err(AppError::NotFoundError(_))));
}

#[test]
fn delete_as_non_owner_fails_and_as_owner_succeeds() {
    let mut state = state_with(&["alice", "bob"]);
    let alice = login_user(&mut state, &form("alice", "pw")).unwrap();
    let bob = login_user(&mut state, &form("bob", "pw")).unwrap();
    post_as(&mut state, &alice, "mine");
    let id = get_posts_on_page(&state, None).unwrap()[0].id;
    let err = delete_user_post(&mut state, Some(&bob), id).unwrap_err();
    assert!(matches!(err, AppError::Forbidden));
    assert_eq!(err.status_code(), 403);
    assert_eq!(get_post(&state, id).unwrap().title, "mine");
    assert!(matches!(delete_user_post(&mut state, None, id), Err(AppError::Unauthenticated)));
    assert!(delete_user_post(&mut state, Some(&alice), id).is_ok());
    assert!(get_post(&state, id).is_none());
    assert!(matches!(delete_user_post(&mut state, Some(&alice), id), Err(AppError::NotFoundError(_))));
}

#[test]
fn profile_pages_and_total_count() {
    let mut state = state_with(&["alice", "bob"]);
    let alice = login_user(&mut state, &form("alice", "pw")).unwrap();
    for i in 1..=25 {
        post_as(&mut state, &alice, &format!("post {}", i));
    }
    let p1 = get_user_with_posts(&state, "alice", None, 10).unwrap();
    assert_eq!(p1.user.username, "alice");
    assert_eq!(p1.posts.len(), 10);
    assert_eq!(p1.posts[0].title, "post 25");
    assert_eq!(p1.posts[9].title, "post 16");
    assert_eq!(p1.total_posts, 25);
    let p3 = get_user_with_posts(&state, "alice", Some(3), 10).unwrap();
    assert_eq!(p3.posts.len(), 5);
    assert_eq!(p3.total_posts, 25);
    let p4 = get_user_with_posts(&state, "alice", Some(4), 10).unwrap();
    assert!(p4.posts.is_empty());
    assert_eq!(p4.total_posts, 25);
    let all = get_user_with_posts(&state, "alice", Some(1), UNBOUNDED_PAGE_SIZE).unwrap();
    assert_eq!(all.posts.len(), 25);
    let bob = get_user_with_posts(&state, "bob", None, 10).unwrap();
    assert!(bob.posts.is_empty());
    assert_eq!(bob.total_posts, 0);
    assert!(matches!(get_user_with_posts(&state, "carol", None, 10), Err(AppError::NotFoundError(_))));
    assert!(matches!(get_user_with_posts(&state, "alice", Some(0), 10), Err(AppError::ValidationError(_))));
    assert!(matches!(get_user_with_posts(&state, "alice", None, 0), Err(AppError::ValidationError(_))));
}

#[test]
fn avatar_only_for_oneself() {
    let mut state = state_with(&["alice", "bob"]);
    let alice = login_user(&mut state, &form("alice", "pw")).unwrap();
    assert!(matches!(get_user_avatar(&state, "alice"), Err(AppError::NotFoundError(_))));
    let r = update_user(&mut state, "bob", Some(&alice), Some(vec![1]));
    assert!(matches!(r, Err(AppError::Forbidden)));
    assert!(matches!(update_user(&mut state, "alice", None, Some(vec![1])), Err(AppError::Unauthenticated)));
    assert!(update_user(&mut state, "alice", Some(&alice), Some(vec![])).is_ok());
    assert!(matches!(get_user_avatar(&state, "alice"), Err(AppError::NotFoundError(_))));
    assert!(update_user(&mut state, "alice", Some(&alice), Some(vec![4, 2])).is_ok());
    assert_eq!(get_user_avatar(&state, "alice").unwrap(), vec![4, 2]);
    assert!(matches!(get_user_avatar(&state, "bob"), Err(AppError::NotFoundError(_))));
    assert!(matches!(get_user_avatar(&state, "carol"), Err(AppError::NotFoundError(_))));
}

#[test]
fn global_feed_rejects_pages_below_one() {
    let state = state_with(&[]);
    let err = get_posts_on_page(&state, Some(0)).unwrap_err();
    assert!(matches!(err, AppError::ValidationError(_)));
    assert_eq!(err.status_code(), 400);
    assert!(get_posts_on_page(&state, Some(2)).unwrap().is_empty());
}

#[test]
fn error_statuses_and_messages() {
    assert_eq!(AppError::Unauthenticated.status_code(), 401);
    assert_eq!(AppError::InvalidUsername.status_code(), 400);
    assert_eq!(AppError::HashingError("h".to_string()).status_code(), 500);
    assert_eq!(AppError::StorageError("s".to_string()).status_code(), 500);
    assert_eq!(AppError::FormError("f".to_string()).status_code(), 500);
    assert_eq!(AppError::InternalError("i".to_string()).status_code(), 500);
    assert_eq!(AppError::LoginError.message(), "Invalid credentials");
    assert_eq!(AppError::DuplicateUsername.message(), "Username already exists");
    assert_eq!(AppError::NotFoundError("Could not find user".to_string()).message(), "Could not find user");
}

//! The operations that requests invoke, over one application state. The
//! transport layer reads the session cookie and the form fields and hands
//! them over as plain values.
use vstd::prelude::*;
use crate::auth::{authenticate, authenticated, authorize_ownership};
use crate::error::AppError;
use crate::model::{AuthForm, Post, PostView, User, UserDTO, UserView, bytes_view, posts_view};
use crate::pagination::{page_of, valid_page_size, POSTS_PER_PAGE};
use crate::post_repository::{find_post, post_opt_view, posts_of};
use crate::post_service::{PostService, new_post_view};
use crate::session_repository::without_token;
use crate::user_repository::{find_user, has_user};
use crate::user_service::{UserService, create_user_outcome, login_outcome, with_avatar};

verus! {

/// Every post of `posts` is owned by a user of `users`.
pub open spec fn posts_reference_users(posts: Seq<PostView>, users: Seq<UserView>) -> bool {
    forall|i: int| 0 <= i < posts.len() ==> has_user(users, #[trigger] posts[i].username)
}

/// The image that a submitted form stores: an empty upload counts as none.
pub open spec fn stored_image(image: Option<Seq<u8>>) -> Option<Seq<u8>> {
    match image {
        Some(b) => if b.len() == 0 {
            None
        } else {
            Some(b)
        },
        None => None,
    }
}

/// The page a query asks for: the first where it names none.
pub open spec fn requested_page(page: Option<i32>) -> int {
    match page {
        Some(p) => p as int,
        None => 1,
    }
}

/// The outcome of a request by `user` (`None`: not authenticated) to delete
/// the post `post_id`, taking the posts from `before` to `after` and
/// returning `r`: it fails with `Unauthenticated`, `NotFoundError` or
/// `Forbidden` and changes nothing, or removes the post of its owner.
pub open spec fn delete_post_outcome(
    before: Seq<PostView>,
    after: Seq<PostView>,
    user: Option<UserView>,
    post_id: int,
    r: Result<(), AppError>,
) -> bool {
    match user {
        None => r == Err::<(), AppError>(AppError::Unauthenticated) && after == before,
        Some(u) => match find_post(before, post_id) {
            None => r is Err && r->Err_0 is NotFoundError && after == before,
            Some(p) => if p.username != u.username {
                r == Err::<(), AppError>(AppError::Forbidden) && after == before
            } else {
                r is Ok && exists|k: int|
                    0 <= k < before.len() && before[k].id == post_id && after == before.remove(k)
            },
        },
    }
}

/// The services of the application, built once and handed to every
/// operation.
pub struct AppState {
    pub user_service: UserService,
    pub post_service: PostService,
}

impl AppState {
    /// Both services are consistent, and every post has an existing owner.
    pub open spec fn wf(&self) -> bool {
        &&& self.user_service.wf()
        &&& self.post_service.wf()
        &&& posts_reference_users(self.post_service.posts(), self.user_service.users())
    }

    /// The state over the two services.
    pub fn new(user_service: UserService, post_service: PostService) -> (r: AppState)
        requires
            user_service.wf(),
            post_service.wf(),
            posts_reference_users(post_service.posts(), user_service.users()),
        ensures
            r.wf(),
            r.user_service == user_service,
            r.post_service == post_service,
    {
        AppState { user_service, post_service }
    }
}

/// A page of the global feed; the first page where none is named. Fails
/// with `ValidationError` for a page below 1.
pub fn get_posts_on_page(state: &AppState, page: Option<i32>) -> (r: Result<Vec<Post>, AppError>)
    ensures
        requested_page(page) < 1 ==> r is Err && r->Err_0 is ValidationError,
        requested_page(page) >= 1 ==> r is Ok && posts_view(r->Ok_0@) == page_of(
            state.post_service.posts(),
            requested_page(page),
            POSTS_PER_PAGE as int,
        ),
{
    let p = match page {
        Some(p) => p,
        None => 1,
    };
    state.post_service.get_posts_on_page(p)
}

/// The post `post_id`, if any.
pub fn get_post(state: &AppState, post_id: i32) -> (r: Option<Post>)
    requires
        state.wf(),
    ensures
        post_opt_view(r) == find_post(state.post_service.posts(), post_id as int),
{
    state.post_service.get_post(post_id)
}

/// The image of the post `post_id`. Fails with `NotFoundError` where there
/// is no such post or it has no image.
pub fn get_post_image(state: &AppState, post_id: i32) -> (r: Result<Vec<u8>, AppError>)
    requires
        state.wf(),
    ensures
        match find_post(state.post_service.posts(), post_id as int) {
            Some(p) => match p.image {
                Some(img) => r is Ok && r->Ok_0@ == img,
                None => r is Err && r->Err_0 is NotFoundError,
            },
            None => r is Err && r->Err_0 is NotFoundError,
        },
{
    match state.post_service.get_post_image(post_id) {
        None => Err(AppError::NotFoundError("Could not find image".to_string())),
        Some(data) => Ok(data),
    }
}

/// Logs the form's user in and returns the new session token.
pub fn login_user(state: &mut AppState, form: &AuthForm) -> (r: Result<String, AppError>)
    requires
        old(state).wf(),
    ensures
        final(state).wf(),
        final(state).post_service == old(state).post_service,
        final(state).user_service.users() == old(state).user_service.users(),
        login_outcome(
            old(state).user_service.users(),
            old(state).user_service.sessions(),
            final(state).user_service.sessions(),
            form.username@,
            form.password@,
            r,
        ),
{
    state.user_service.login(form.username.as_str(), form.password.as_str())
}

/// Ends the presented session. Fails with `Unauthenticated` where no token
/// is presented; a token that is not live is no error.
pub fn logout_user(state: &mut AppState, session_id: Option<&str>) -> (r: Result<(), AppError>)
    requires
        old(state).wf(),
    ensures
        final(state).wf(),
        final(state).post_service == old(state).post_service,
        final(state).user_service.users() == old(state).user_service.users(),
        match session_id {
            None => r == Err::<(), AppError>(AppError::Unauthenticated)
                && final(state).user_service.sessions() == old(state).user_service.sessions(),
            Some(t) => r is Ok && final(state).user_service.sessions() == without_token(
                old(state).user_service.sessions(),
                t@,
            ),
        },
{
    match session_id {
        None => Err(AppError::Unauthenticated),
        Some(t) => {
            state.user_service.logout(t);
            Ok(())
        },
    }
}

/// The user of the presented session. Fails with `Unauthenticated` where
/// there is none or it is not live.
pub fn validate_session(state: &AppState, session_id: Option<&str>) -> (r: Result<User, AppError>)
    requires
        state.wf(),
    ensures
        match authenticated(&state.user_service, session_id) {
            Some(u) => r is Ok && r->Ok_0@ == u,
            None => r == Err::<User, AppError>(AppError::Unauthenticated),
        },
{
    authenticate(&state.user_service, session_id)
}

/// Signs the form's user up.
pub fn signup_user(state: &mut AppState, form: &AuthForm) -> (r: Result<(), AppError>)
    requires
        old(state).wf(),
    ensures
        final(state).wf(),
        final(state).post_service == old(state).post_service,
        final(state).user_service.sessions() == old(state).user_service.sessions(),
        create_user_outcome(
            old(state).user_service.users(),
            final(state).user_service.users(),
            form.username@,
            form.password@,
            r,
        ),
{
    let ghost before = state.user_service.users();
    let r = state.user_service.create_user(form.username.as_str(), form.password.as_str());
    proof {
        let after = state.user_service.users();
        if r is Ok {
            assert forall|i: int| 0 <= i < state.post_service.posts().len() implies has_user(
                after,
                #[trigger] state.post_service.posts()[i].username,
            ) by {
                let j = choose|j: int|
                    0 <= j < before.len() && #[trigger] before[j].username
                        == state.post_service.posts()[i].username;
                assert(after.drop_last()[j] == before[j]);
            }
        }
    }
    r
}

/// Creates a post of the presented session's user, created now. An empty
/// image counts as none. Fails with `Unauthenticated` where the session is
/// missing or not live, and with `StorageError` once every id is used;
/// nothing is stored then.
pub fn create_post(
    state: &mut AppState,
    session_id: Option<&str>,
    title: String,
    body: String,
    image: Option<Vec<u8>>,
) -> (r: Result<(), AppError>)
    requires
        old(state).wf(),
    ensures
        final(state).wf(),
        final(state).user_service == old(state).user_service,
        match authenticated(&old(state).user_service, session_id) {
            None => r == Err::<(), AppError>(AppError::Unauthenticated)
                && final(state).post_service.posts() == old(state).post_service.posts(),
            Some(u) => if old(state).post_service.next_id() == i32::MAX {
                r is Err && r->Err_0 is StorageError && final(state).post_service.posts() == old(state).post_service.posts()
            } else {
                &&& r is Ok
                &&& final(state).post_service.next_id() == old(state).post_service.next_id() + 1
                &&& exists|k: int, date: int|
                    0 <= k <= old(state).post_service.posts().len() && final(state).post_service.posts()
                        == old(state).post_service.posts().insert(
                        k,
                        new_post_view(
                            old(state).post_service.next_id(),
                            title@,
                            body@,
                            date,
                            stored_image(bytes_view(image)),
                            u.username,
                        ),
                    )
            },
        },
{
    let user = match authenticate(&state.user_service, session_id) {
        Ok(u) => u,
        Err(e) => {
            return Err(e);
        },
    };
    let stored = match image {
        Some(data) => if data.len() == 0 {
            None
        } else {
            Some(data)
        },
        None => None,
    };
    assert(bytes_view(stored) == stored_image(bytes_view(image)));
    let ghost before = state.post_service.posts();
    let ghost users = state.user_service.users();
    let ghost uname = user.username@;
    let ghost img = bytes_view(stored);
    let ghost id = state.post_service.next_id();
    assert(has_user(users, uname));
    proof {
        state.post_service.lemma_wf();
    }
    let r = state.post_service.create_post(title, body, stored, user.username, &state.user_service);
    proof {
        let after = state.post_service.posts();
        if r is Ok {
            assert(id < i32::MAX);
            let (k, d) = choose|k: int, date: int|
                0 <= k <= before.len() && after == before.insert(
                    k,
                    new_post_view(id, title@, body@, date, img, uname),
                );
            assert forall|i: int| 0 <= i < after.len() implies has_user(
                users,
                #[trigger] after[i].username,
            ) by {
                if i < k {
                    assert(after[i] == before[i]);
                } else if i > k {
                    assert(after[i] == before[i - 1]);
                }
            }
        }
    }
    r
}

/// Deletes the post `post_id` for the presented session's user. Fails with
/// `Unauthenticated` where the session is missing or not live, with
/// `NotFoundError` where there is no such post and with `Forbidden` where
/// another user owns it; nothing changes then.
pub fn delete_user_post(state: &mut AppState, session_id: Option<&str>, post_id: i32) -> (r: Result<
    (),
    AppError,
>)
    requires
        old(state).wf(),
    ensures
        final(state).wf(),
        final(state).user_service == old(state).user_service,
        delete_post_outcome(
            old(state).post_service.posts(),
            final(state).post_service.posts(),
            authenticated(&old(state).user_service, session_id),
            post_id as int,
            r,
        ),
{
    let user = match authenticate(&state.user_service, session_id) {
        Ok(u) => u,
        Err(e) => {
            return Err(e);
        },
    };
    let ghost before = state.post_service.posts();
    let ghost users = state.user_service.users();
    let r = state.post_service.delete_post_of_user(user.username.as_str(), post_id);
    if r.is_err() {
        return r;
    }
    proof {
        let after = state.post_service.posts();
        let k = choose|k: int| 0 <= k < before.len() && before[k].id == post_id && after == before.remove(k);
        assert forall|i: int| 0 <= i < after.len() implies has_user(
            users,
            #[trigger] after[i].username,
        ) by {
            if i < k {
                assert(after[i] == before[i]);
            } else {
                assert(after[i] == before[i + 1]);
            }
        }
    }
    Ok(())
}

/// The profile of `username`: the user, page `page` (the first where none is
/// named) of their posts in pages of `page_size`, and their post count.
/// Fails with `NotFoundError` where there is no such user, and with
/// `ValidationError` for a page below 1 or a page size that is neither
/// positive nor the unbounded sentinel.
pub fn get_user_with_posts(
    state: &AppState,
    username: &str,
    page: Option<i32>,
    page_size: i64,
) -> (r: Result<UserDTO, AppError>)
    requires
        state.wf(),
    ensures
        match find_user(state.user_service.users(), username@) {
            None => r is Err && r->Err_0 is NotFoundError,
            Some(u) => if requested_page(page) < 1 || !valid_page_size(page_size as int) {
                r is Err && r->Err_0 is ValidationError
            } else {
                &&& r is Ok
                &&& r->Ok_0.user@ == u
                &&& posts_view(r->Ok_0.posts@) == page_of(
                    posts_of(state.post_service.posts(), username@),
                    requested_page(page),
                    page_size as int,
                )
                &&& r->Ok_0.total_posts == posts_of(state.post_service.posts(), username@).len()
            },
        },
{
    let user = match state.user_service.get_user_by_username(username) {
        Some(u) => u,
        None => {
            return Err(AppError::NotFoundError("Could not find user".to_string()));
        },
    };
    let count = state.post_service.get_post_count_by_username(username);
    let p = match page {
        Some(p) => p,
        None => 1,
    };
    let posts = match state.post_service.get_posts_of_user(username, p, page_size) {
        Ok(posts) => posts,
        Err(e) => {
            return Err(e);
        },
    };
    Ok(UserDTO { user, posts, total_posts: count })
}

/// Sets the avatar of `username` for the presented session's user. An
/// absent or empty upload changes nothing. Fails with `Unauthenticated`
/// where the session is missing or not live, and with `Forbidden` where it
/// belongs to another user.
pub fn update_user(
    state: &mut AppState,
    username: &str,
    session_id: Option<&str>,
    avatar: Option<Vec<u8>>,
) -> (r: Result<(), AppError>)
    requires
        old(state).wf(),
    ensures
        final(state).wf(),
        final(state).post_service == old(state).post_service,
        final(state).user_service.sessions() == old(state).user_service.sessions(),
        match authenticated(&old(state).user_service, session_id) {
            None => r == Err::<(), AppError>(AppError::Unauthenticated)
                && final(state).user_service.users() == old(state).user_service.users(),
            Some(u) => if u.username != username@ {
                r == Err::<(), AppError>(AppError::Forbidden) && final(state).user_service.users()
                    == old(state).user_service.users()
            } else {
                r is Ok && final(state).user_service.users() == match stored_image(
                    bytes_view(avatar),
                ) {
                    Some(a) => with_avatar(old(state).user_service.users(), username@, a),
                    None => old(state).user_service.users(),
                }
            },
        },
{
    let user = match authenticate(&state.user_service, session_id) {
        Ok(u) => u,
        Err(e) => {
            return Err(e);
        },
    };
    if let Err(e) = authorize_ownership(&user, username) {
        return Err(e);
    }
    match avatar {
        Some(data) => {
            if data.len() == 0 {
                return Ok(());
            }
            proof {
                let sessions = state.user_service.sessions();
                let users = state.user_service.users();
                let t = session_id->Some_0@;
                let name = crate::session_repository::session_owner(sessions, t)->Some_0;
                assert(find_user(users, name) is Some);
                assert(has_user(users, username@));
            }
            let ghost before = state.user_service.users();
            let r = state.user_service.update_user_avatar(username, data);
            proof {
                let after = state.user_service.users();
                assert forall|i: int| 0 <= i < state.post_service.posts().len() implies has_user(
                    after,
                    #[trigger] state.post_service.posts()[i].username,
                ) by {
                    let j = choose|j: int|
                        0 <= j < before.len() && #[trigger] before[j].username
                            == state.post_service.posts()[i].username;
                    assert(after[j].username == before[j].username);
                }
            }
            r
        },
        None => Ok(()),
    }
}

/// The avatar of `username`. Fails with `NotFoundError` where there is no
/// such user or the user has none.
pub fn get_user_avatar(state: &AppState, username: &str) -> (r: Result<Vec<u8>, AppError>)
    requires
        state.wf(),
    ensures
        match find_user(state.user_service.users(), username@) {
            Some(u) => match u.avatar {
                Some(a) => r is Ok && r->Ok_0@ == a,
                None => r is Err && r->Err_0 is NotFoundError,
            },
            None => r is Err && r->Err_0 is NotFoundError,
        },
{
    match state.user_service.get_user_avatar(username) {
        None => Err(AppError::NotFoundError("Could not find image".to_string())),
        Some(data) => Ok(data),
    }
}

} // verus!

//! What holds across operations: sign-up and lookup, login and session
//! resolution, logout, and owner-only deletion.
use vstd::prelude::*;
use crate::controller::delete_post_outcome;
use crate::error::AppError;
use crate::model::{PostView, SessionView, UserView};
use crate::platform::bcrypt_verdict;
use crate::post_repository::{find_post, has_post, unique_ids};
use crate::session_repository::{
    has_token, lemma_session_owner_at, lemma_without_token_absent, lemma_without_token_unchanged,
    lemma_without_user_unbinds, resolve, session_owner, unique_tokens, without_token,
    without_user,
};
use crate::user_repository::{
    find_user, has_user, lemma_find_user_at, unique_usernames, valid_username, valid_usernames,
};
use crate::user_service::{create_user_outcome, login_outcome};

verus! {

/// A sign-up that succeeds leaves a user under that name whose stored hash
/// bcrypt accepts for the password given.
pub proof fn law_signup_then_lookup(
    before: Seq<UserView>,
    after: Seq<UserView>,
    name: Seq<char>,
    password: Seq<char>,
    r: Result<(), AppError>,
)
    requires
        unique_usernames(after),
        create_user_outcome(before, after, name, password, r),
        r is Ok,
    ensures
        valid_username(name),
        find_user(after, name) is Some,
        find_user(after, name)->Some_0.username == name,
        bcrypt_verdict(password, find_user(after, name)->Some_0.password) == Some(true),
{
    lemma_find_user_at(after, name, after.len() - 1);
}

/// Signing up under a name that is taken fails with `DuplicateUsername`
/// and leaves the users as they were.
pub proof fn law_duplicate_signup(
    before: Seq<UserView>,
    after: Seq<UserView>,
    name: Seq<char>,
    password: Seq<char>,
    r: Result<(), AppError>,
)
    requires
        valid_usernames(before),
        has_user(before, name),
        create_user_outcome(before, after, name, password, r),
    ensures
        r == Err::<(), AppError>(AppError::DuplicateUsername),
        after == before,
        find_user(after, name) == find_user(before, name),
{
    let i = choose|i: int| 0 <= i < before.len() && #[trigger] before[i].username == name;
    assert(valid_username(before[i].username));
}

/// A login that succeeds issues a token that no session held before and
/// that resolves to the user, and every token that was bound to that user
/// before resolves no more.
pub proof fn law_login_then_resolve(
    users: Seq<UserView>,
    before: Seq<SessionView>,
    after: Seq<SessionView>,
    name: Seq<char>,
    password: Seq<char>,
    r: Result<String, AppError>,
    prior: Seq<char>,
)
    requires
        unique_usernames(users),
        unique_tokens(before),
        unique_tokens(after),
        login_outcome(users, before, after, name, password, r),
        r is Ok,
    ensures
        find_user(users, name) is Some,
        resolve(after, users, r->Ok_0@) == find_user(users, name),
        !has_token(before, r->Ok_0@),
        session_owner(before, prior) == Some(name) ==> resolve(after, users, prior) is None,
{
    let t = r->Ok_0@;
    let kept = without_user(before, name);
    lemma_session_owner_at(after, t, after.len() - 1);
    if session_owner(before, prior) == Some(name) {
        let c = choose|c: int| 0 <= c < before.len() && #[trigger] before[c].session_id == prior;
        assert(prior != t);
        lemma_without_user_unbinds(before, name, prior);
        if has_token(after, prior) {
            let i = choose|i: int| 0 <= i < after.len() && #[trigger] after[i].session_id == prior;
            if i < kept.len() {
                assert(after[i] == kept[i]);
            }
        }
    }
}

/// After a logout the token resolves no more; logging out a token that is
/// not live changes nothing.
pub proof fn law_logout(
    users: Seq<UserView>,
    before: Seq<SessionView>,
    after: Seq<SessionView>,
    token: Seq<char>,
)
    requires
        after == without_token(before, token),
    ensures
        resolve(after, users, token) is None,
        !has_token(before, token) ==> after == before,
{
    lemma_without_token_absent(before, token);
    if !has_token(before, token) {
        lemma_without_token_unchanged(before, token);
    }
}

/// Deleting a post as another user fails with `Forbidden` and keeps the
/// post; deleting it as its owner succeeds, and it can no longer be found.
pub proof fn law_delete_post(
    before: Seq<PostView>,
    after: Seq<PostView>,
    user: UserView,
    post_id: int,
    r: Result<(), AppError>,
)
    requires
        unique_ids(before),
        has_post(before, post_id),
        delete_post_outcome(before, after, Some(user), post_id, r),
    ensures
        find_post(before, post_id)->Some_0.username != user.username ==> r == Err::<(), AppError>(
            AppError::Forbidden,
        ) && find_post(after, post_id) == find_post(before, post_id),
        find_post(before, post_id)->Some_0.username == user.username ==> r is Ok && find_post(
            after,
            post_id,
        ) is None,
{
    if find_post(before, post_id)->Some_0.username == user.username {
        let k = choose|k: int|
            0 <= k < before.len() && before[k].id == post_id && after == before.remove(k);
        if has_post(after, post_id) {
            let i = choose|i: int| 0 <= i < after.len() && #[trigger] after[i].id == post_id;
            if i < k {
                assert(after[i] == before[i]);
            } else {
                assert(after[i] == before[i + 1]);
            }
        }
    }
}

} // verus!

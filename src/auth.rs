//! The authorization gate: from a session token to a user, and from a user
//! to the right to change a resource.
use vstd::prelude::*;
use crate::error::AppError;
use crate::model::{User, UserView};
use crate::session_repository::resolve;
use crate::user_service::UserService;

verus! {

/// The user that the presented token (if any) resolves to in `users`.
pub open spec fn authenticated(users: &UserService, session_id: Option<&str>) -> Option<UserView> {
    match session_id {
        Some(t) => resolve(users.sessions(), users.users(), t@),
        None => None,
    }
}

/// The user of the presented session token. Fails with `Unauthenticated`
/// where no token is presented or it does not resolve.
pub fn authenticate(users: &UserService, session_id: Option<&str>) -> (r: Result<User, AppError>)
    requires
        users.wf(),
    ensures
        match authenticated(users, session_id) {
            Some(u) => r is Ok && r->Ok_0@ == u,
            None => r == Err::<User, AppError>(AppError::Unauthenticated),
        },
{
    match session_id {
        None => Err(AppError::Unauthenticated),
        Some(t) => match users.get_user_by_session(t) {
            Some(u) => Ok(u),
            None => Err(AppError::Unauthenticated),
        },
    }
}

/// Lets `user` change a resource of `owner`: fails with `Forbidden` unless
/// they are the same user.
pub fn authorize_ownership(user: &User, owner: &str) -> (r: Result<(), AppError>)
    ensures
        user.username@ == owner@ ==> r is Ok,
        user.username@ != owner@ ==> r == Err::<(), AppError>(AppError::Forbidden),
{
    if user.username == owner.to_owned() {
        Ok(())
    } else {
        Err(AppError::Forbidden)
    }
}

} // verus!

//! Sign-up, login, logout and profile changes over the credential and
//! session stores.
use vstd::prelude::*;
use crate::error::AppError;
use crate::model::{Session, SessionView, UpdateUser, User, UserView, bytes_view};
use crate::platform::{bcrypt_hash, bcrypt_verdict, bcrypt_verify, new_session_token, today};
use crate::session_repository::{
    SessionRepository, has_token, lemma_filter_keeps_refs, resolve, sessions_reference_users,
    unique_tokens, without_token, without_user,
};
use crate::user_repository::{
    UserRepository, find_user, has_user, unique_usernames, updated_user,
    user_opt_view, valid_username, valid_usernames,
};

verus! {

/// The outcome of a login of `name` with `password` against `users`, taking
/// the sessions from `before` to `after` and returning `r`: an unknown user
/// or a wrong password fails with `LoginError`, a hash that cannot be read
/// with `HashingError`, and a match replaces the user's sessions with one
/// under the returned token, which no session held before. The one other
/// outcome of a match is `StorageError`, nothing changed, where the fresh
/// random token is already live; that needs a live session.
pub open spec fn login_outcome(
    users: Seq<UserView>,
    before: Seq<SessionView>,
    after: Seq<SessionView>,
    name: Seq<char>,
    password: Seq<char>,
    r: Result<String, AppError>,
) -> bool {
    match find_user(users, name) {
        None => r == Err::<String, AppError>(AppError::LoginError) && after == before,
        Some(u) => match bcrypt_verdict(password, u.password) {
            None => r is Err && r->Err_0 is HashingError && after == before,
            Some(false) => r == Err::<String, AppError>(AppError::LoginError) && after == before,
            Some(true) => match r {
                Ok(t) => {
                    &&& !has_token(before, t@)
                    &&& after == without_user(before, name).push(
                        SessionView { session_id: t@, username: name },
                    )
                },
                Err(e) => e is StorageError && before.len() > 0 && after == before,
            },
        },
    }
}

/// The outcome of a sign-up of `name` with `password`, taking the users from
/// `before` to `after` and returning `r`: an invalid name fails with
/// `InvalidUsername`, a taken one with `DuplicateUsername`; otherwise the
/// user is added with no avatar and a hash that bcrypt accepts for the
/// password, unless hashing fails (`HashingError`, nothing added).
pub open spec fn create_user_outcome(
    before: Seq<UserView>,
    after: Seq<UserView>,
    name: Seq<char>,
    password: Seq<char>,
    r: Result<(), AppError>,
) -> bool {
    if !valid_username(name) {
        r == Err::<(), AppError>(AppError::InvalidUsername) && after == before
    } else if has_user(before, name) {
        r == Err::<(), AppError>(AppError::DuplicateUsername) && after == before
    } else {
        match r {
            Ok(_) => {
                &&& after.len() == before.len() + 1
                &&& after.drop_last() == before
                &&& after.last().username == name
                &&& after.last().avatar is None
                &&& bcrypt_verdict(password, after.last().password) == Some(true)
            },
            Err(e) => e is HashingError && after == before,
        }
    }
}

/// `users` with the avatar of `name` set to `avatar`.
pub open spec fn with_avatar(users: Seq<UserView>, name: Seq<char>, avatar: Seq<u8>) -> Seq<
    UserView,
> {
    users.map_values(
        |u: UserView|
            if u.username == name {
                updated_user(u, None, Some(avatar))
            } else {
                u
            },
    )
}

/// Users and their sessions.
pub struct UserService {
    user_repository: UserRepository,
    session_repository: SessionRepository,
}

impl UserService {
    /// The users.
    pub closed spec fn users(&self) -> Seq<UserView> {
        self.user_repository@
    }

    /// The live sessions.
    pub closed spec fn sessions(&self) -> Seq<SessionView> {
        self.session_repository@
    }

    /// Usernames are valid and unique, tokens are unique, and every session
    /// is bound to a user.
    pub open spec fn wf(&self) -> bool {
        &&& unique_usernames(self.users())
        &&& valid_usernames(self.users())
        &&& unique_tokens(self.sessions())
        &&& sessions_reference_users(self.sessions(), self.users())
    }

    /// A service over the two stores.
    pub fn new(user_repository: UserRepository, session_repository: SessionRepository) -> (r:
        UserService)
        requires
            user_repository.wf(),
            session_repository.wf(),
            sessions_reference_users(session_repository@, user_repository@),
        ensures
            r.wf(),
            r.users() == user_repository@,
            r.sessions() == session_repository@,
    {
        UserService { user_repository, session_repository }
    }

    /// The store of users.
    pub fn user_repository(&self) -> (r: &UserRepository)
        requires
            self.wf(),
        ensures
            r.wf(),
            r@ == self.users(),
    {
        &self.user_repository
    }

    /// Every user, in the order they signed up.
    pub fn get_users(&self) -> (r: Vec<User>)
        ensures
            r@.map_values(|u: User| u@) == self.users(),
    {
        self.user_repository.fetch_all_users()
    }

    /// The user named `username`, if any.
    pub fn get_user_by_username(&self, username: &str) -> (r: Option<User>)
        requires
            self.wf(),
        ensures
            user_opt_view(r) == find_user(self.users(), username@),
    {
        self.user_repository.get_user_by_username(username)
    }

    /// Whether `password` matches the stored hash of `username`. Fails with
    /// `NotFoundError` where there is no such user, and with `HashingError`
    /// where the stored hash cannot be read.
    pub fn verify_password(&self, username: &str, password: &str) -> (r: Result<bool, AppError>)
        requires
            self.wf(),
        ensures
            match find_user(self.users(), username@) {
                None => r is Err && r->Err_0 is NotFoundError,
                Some(u) => match bcrypt_verdict(password@, u.password) {
                    Some(b) => r == Ok::<bool, AppError>(b),
                    None => r is Err && r->Err_0 is HashingError,
                },
            },
    {
        let user = match self.user_repository.get_user_by_username(username) {
            Some(u) => u,
            None => {
                return Err(AppError::NotFoundError("Could not find user".to_string()));
            },
        };
        match bcrypt_verify(password, user.password.as_str()) {
            Some(b) => Ok(b),
            None => Err(AppError::HashingError("Could not verify the password".to_string())),
        }
    }

    /// Logs `username` in with `password` and returns a fresh session token.
    /// A new login ends the user's earlier sessions.
    pub fn login(&mut self, username: &str, password: &str) -> (r: Result<String, AppError>)
        requires
            old(self).wf(),
        ensures
            final(self).wf(),
            final(self).users() == old(self).users(),
            login_outcome(
                old(self).users(),
                old(self).sessions(),
                final(self).sessions(),
                username@,
                password@,
                r,
            ),
    {
        let ghost u = find_user(self.users(), username@)->Some_0;
        match self.verify_password(username, password) {
            Err(AppError::NotFoundError(_)) => Err(AppError::LoginError),
            Err(e) => Err(e),
            Ok(false) => Err(AppError::LoginError),
            Ok(true) => {
                let session_id = new_session_token();
                let ghost before = self.session_repository@;
                let session = Session { session_id: session_id.clone(), username: username.to_owned() };
                proof {
                    lemma_filter_keeps_refs(
                        before,
                        self.user_repository@,
                        |s: SessionView| s.username != username@,
                    );
                }
                let added = self.session_repository.add_session(session);
                proof {
                    if added is Err {
                        let j = choose|j: int|
                            0 <= j < before.len() && #[trigger] before[j].session_id == session_id@;
                        assert(before.len() > 0);
                    }
                }
                proof {
                    let after = self.session_repository@;
                    assert forall|i: int| 0 <= i < after.len() implies has_user(
                        self.user_repository@,
                        #[trigger] after[i].username,
                    ) by {
                        if added is Err {
                            assert(after[i] == before[i]);
                        } else if i == after.len() - 1 {
                            assert(has_user(self.user_repository@, u.username));
                        } else {
                            assert(after[i] == without_user(before, username@)[i]);
                        }
                    }
                }
                match added {
                    Ok(()) => Ok(session_id),
                    Err(e) => Err(e),
                }
            },
        }
    }

    /// Ends the session `session_id`; a token that is not live is no error.
    pub fn logout(&mut self, session_id: &str)
        requires
            old(self).wf(),
        ensures
            final(self).wf(),
            final(self).users() == old(self).users(),
            final(self).sessions() == without_token(old(self).sessions(), session_id@),
    {
        proof {
            lemma_filter_keeps_refs(
                self.session_repository@,
                self.user_repository@,
                |s: SessionView| s.session_id != session_id@,
            );
        }
        self.session_repository.delete_session(session_id);
    }

    /// The user that the session `session_id` belongs to, if it is live.
    pub fn get_user_by_session(&self, session_id: &str) -> (r: Option<User>)
        requires
            self.wf(),
        ensures
            user_opt_view(r) == resolve(self.sessions(), self.users(), session_id@),
    {
        self.session_repository.get_user_by_session(session_id, &self.user_repository)
    }

    /// Signs `username` up with `password`, stored as a bcrypt hash.
    pub fn create_user(&mut self, username: &str, password: &str) -> (r: Result<(), AppError>)
        requires
            old(self).wf(),
        ensures
            final(self).wf(),
            final(self).sessions() == old(self).sessions(),
            create_user_outcome(old(self).users(), final(self).users(), username@, password@, r),
    {
        if !UserRepository::is_correct_username(username) {
            return Err(AppError::InvalidUsername);
        }
        if self.user_repository.get_user_by_username(username).is_some() {
            return Err(AppError::DuplicateUsername);
        }
        let hashed = match bcrypt_hash(password) {
            Some(h) => h,
            None => {
                return Err(AppError::HashingError("Could not hash the password".to_string()));
            },
        };
        let user = User { username: username.to_owned(), password: hashed, avatar: None, joined: today() };
        let ghost before = self.user_repository@;
        let r = self.user_repository.create_new_user(user);
        proof {
            let after = self.user_repository@;
            assert(after.drop_last() =~= before);
            assert forall|i: int| 0 <= i < self.session_repository@.len() implies has_user(
                after,
                #[trigger] self.session_repository@[i].username,
            ) by {
                let j = choose|j: int| 0 <= j < before.len() && #[trigger] before[j].username == self.session_repository@[i].username;
                assert(after[j] == before[j]);
            }
        }
        r
    }

    /// Sets the avatar of `username`. Fails with `NotFoundError` where there
    /// is no such user.
    pub fn update_user_avatar(&mut self, username: &str, avatar: Vec<u8>) -> (r: Result<(), AppError>)
        requires
            old(self).wf(),
        ensures
            final(self).wf(),
            final(self).sessions() == old(self).sessions(),
            has_user(old(self).users(), username@) ==> r is Ok && final(self).users() == with_avatar(
                old(self).users(),
                username@,
                avatar@,
            ),
            !has_user(old(self).users(), username@) ==> r is Err && r->Err_0 is NotFoundError
                && final(self).users() == old(self).users(),
    {
        let ghost before = self.user_repository@;
        let ghost av = avatar@;
        let payload = UpdateUser { username: Some(username.to_owned()), password: None, avatar: Some(avatar) };
        let r = self.user_repository.update_user(payload);
        proof {
            let after = self.user_repository@;
            if r is Ok {
                assert(after =~= with_avatar(before, username@, av));
                assert forall|i: int| 0 <= i < self.session_repository@.len() implies has_user(
                    after,
                    #[trigger] self.session_repository@[i].username,
                ) by {
                    let j = choose|j: int| 0 <= j < before.len() && #[trigger] before[j].username == self.session_repository@[i].username;
                    assert(after[j].username == before[j].username);
                }
            }
        }
        r
    }

    /// The avatar of `username`; `None` where there is no such user or the
    /// user has none.
    pub fn get_user_avatar(&self, username: &str) -> (r: Option<Vec<u8>>)
        requires
            self.wf(),
        ensures
            bytes_view(r) == match find_user(self.users(), username@) {
                Some(u) => u.avatar,
                None => None,
            },
    {
        match self.user_repository.get_user_by_username(username) {
            Some(u) => u.avatar,
            None => None,
        }
    }
}

} // verus!

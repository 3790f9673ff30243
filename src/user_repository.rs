//! The credential store: users keyed by their unique username.
use vstd::prelude::*;
use crate::error::AppError;
use crate::model::{User, UserView, UpdateUser, bytes_view, copy_bytes, string_opt_view};

verus! {

/// A character allowed in a username: an ASCII letter or digit, or `_`.
pub open spec fn username_char(c: char) -> bool {
    ('a' <= c && c <= 'z') || ('A' <= c && c <= 'Z') || ('0' <= c && c <= '9') || c == '_'
}

/// A username is non-empty and made of allowed characters only.
pub open spec fn valid_username(s: Seq<char>) -> bool {
    s.len() > 0 && forall|i: int| 0 <= i < s.len() ==> #[trigger] username_char(s[i])
}

/// Some record of `users` has the username `name`.
pub open spec fn has_user(users: Seq<UserView>, name: Seq<char>) -> bool {
    exists|i: int| 0 <= i < users.len() && #[trigger] users[i].username == name
}

/// The record of `users` named `name`, if any.
pub open spec fn find_user(users: Seq<UserView>, name: Seq<char>) -> Option<UserView> {
    if has_user(users, name) {
        Some(users[choose|i: int| 0 <= i < users.len() && #[trigger] users[i].username == name])
    } else {
        None
    }
}

/// No two records of `users` share a username.
pub open spec fn unique_usernames(users: Seq<UserView>) -> bool {
    forall|i: int, j: int|
        0 <= i < users.len() && 0 <= j < users.len() && #[trigger] users[i].username
            == #[trigger] users[j].username ==> i == j
}

/// Every username of `users` is valid.
pub open spec fn valid_usernames(users: Seq<UserView>) -> bool {
    forall|i: int| 0 <= i < users.len() ==> valid_username(#[trigger] users[i].username)
}

/// The abstract value of an optional user.
pub open spec fn user_opt_view(u: Option<User>) -> Option<UserView> {
    match u {
        Some(u) => Some(u@),
        None => None,
    }
}

/// `u` after a partial update that sets the password and the avatar where
/// they are given.
pub open spec fn updated_user(
    u: UserView,
    password: Option<Seq<char>>,
    avatar: Option<Seq<u8>>,
) -> UserView {
    UserView {
        username: u.username,
        password: match password {
            Some(p) => p,
            None => u.password,
        },
        avatar: match avatar {
            Some(a) => Some(a),
            None => u.avatar,
        },
        joined: u.joined,
    }
}

/// A finding of `find_user` at a known index.
pub proof fn lemma_find_user_at(users: Seq<UserView>, name: Seq<char>, i: int)
    requires
        unique_usernames(users),
        0 <= i < users.len(),
        users[i].username == name,
    ensures
        find_user(users, name) == Some(users[i]),
{
    assert(has_user(users, name));
}

/// The users, in the order they signed up.
pub struct UserRepository {
    users: Vec<User>,
}

impl View for UserRepository {
    type V = Seq<UserView>;

    closed spec fn view(&self) -> Seq<UserView> {
        self.users@.map_values(|u: User| u@)
    }
}

impl UserRepository {
    /// The store's invariant: usernames are valid and unique.
    pub open spec fn wf(&self) -> bool {
        unique_usernames(self@) && valid_usernames(self@)
    }

    /// An empty store.
    pub fn new() -> (r: UserRepository)
        ensures
            r.wf(),
            r@ == Seq::<UserView>::empty(),
    {
        let r = UserRepository { users: Vec::new() };
        assert(r@ =~= Seq::<UserView>::empty());
        r
    }

    /// Every user, in the order they signed up.
    pub fn fetch_all_users(&self) -> (r: Vec<User>)
        ensures
            r@.map_values(|u: User| u@) == self@,
    {
        let mut r: Vec<User> = Vec::new();
        let mut i: usize = 0;
        while i < self.users.len()
            invariant
                i <= self@.len(),
                r@.map_values(|u: User| u@) == self@.subrange(0, i as int),
            decreases self@.len() - i,
        {
            let c = self.users[i].copy();
            let ghost before = r@;
            r.push(c);
            assert(r@.map_values(|u: User| u@) =~= before.map_values(|u: User| u@).push(c@));
            assert(r@.map_values(|u: User| u@) =~= self@.subrange(0, i + 1));
            i = i + 1;
        }
        assert(self@.subrange(0, self@.len() as int) =~= self@);
        r
    }

    /// Whether `username` is non-empty and made of ASCII letters, digits and
    /// `_` only.
    pub fn is_correct_username(username: &str) -> (r: bool)
        ensures
            r == valid_username(username@),
    {
        let n = username.unicode_len();
        if n == 0 {
            return false;
        }
        let mut i: usize = 0;
        while i < n
            invariant
                n == username@.len(),
                i <= n,
                forall|k: int| 0 <= k < i ==> #[trigger] username_char(username@[k]),
            decreases n - i,
        {
            let c = username.get_char(i);
            if !(('a' <= c && c <= 'z') || ('A' <= c && c <= 'Z') || ('0' <= c && c <= '9') || c
                == '_') {
                assert(!username_char(username@[i as int]));
                return false;
            }
            i = i + 1;
        }
        true
    }

    /// The index of the user named `name`, if any.
    fn index_of(&self, name: &str) -> (r: Option<usize>)
        requires
            self.wf(),
        ensures
            match r {
                Some(i) => i < self@.len() && self@[i as int].username == name@,
                None => !has_user(self@, name@),
            },
    {
        let target = name.to_owned();
        let mut i: usize = 0;
        while i < self.users.len()
            invariant
                target@ == name@,
                i <= self.users@.len(),
                forall|k: int| 0 <= k < i ==> #[trigger] self@[k].username != name@,
            decreases self.users@.len() - i,
        {
            if self.users[i].username == target {
                return Some(i);
            }
            i = i + 1;
        }
        None
    }

    /// The user named `username`, if there is one.
    pub fn get_user_by_username(&self, username: &str) -> (r: Option<User>)
        requires
            self.wf(),
        ensures
            user_opt_view(r) == find_user(self@, username@),
    {
        match self.index_of(username) {
            Some(i) => {
                proof {
                    lemma_find_user_at(self@, username@, i as int);
                }
                Some(self.users[i].copy())
            },
            None => None,
        }
    }

    /// Adds `user`. Fails with `InvalidUsername` where its username is not
    /// valid and with `DuplicateUsername` where it is taken; the store is
    /// then unchanged.
    pub fn create_new_user(&mut self, user: User) -> (r: Result<(), AppError>)
        requires
            old(self).wf(),
        ensures
            final(self).wf(),
            !valid_username(user.username@) ==> r == Err::<(), AppError>(AppError::InvalidUsername)
                && final(self)@ == old(self)@,
            valid_username(user.username@) && has_user(old(self)@, user.username@) ==> r == Err::<
                (),
                AppError,
            >(AppError::DuplicateUsername) && final(self)@ == old(self)@,
            valid_username(user.username@) && !has_user(old(self)@, user.username@) ==> r is Ok
                && final(self)@ == old(self)@.push(user@),
    {
        if !Self::is_correct_username(user.username.as_str()) {
            return Err(AppError::InvalidUsername);
        }
        if self.index_of(user.username.as_str()).is_some() {
            return Err(AppError::DuplicateUsername);
        }
        self.users.push(user);
        assert(self@ =~= old(self)@.push(user@));
        Ok(())
    }

    /// Applies `user` to the record named by `user.username`: the password
    /// and the avatar change where they are given. Fails with `NotFoundError`
    /// where no username is given or no such user exists.
    pub fn update_user(&mut self, user: UpdateUser) -> (r: Result<(), AppError>)
        requires
            old(self).wf(),
        ensures
            final(self).wf(),
            match user.username {
                Some(name) => if has_user(old(self)@, name@) {
                    r is Ok && final(self)@ == old(self)@.map_values(
                        |u: UserView|
                            if u.username == name@ {
                                updated_user(
                                    u,
                                    string_opt_view(user.password),
                                    bytes_view(user.avatar),
                                )
                            } else {
                                u
                            },
                    )
                } else {
                    r is Err && r->Err_0 is NotFoundError && final(self)@ == old(self)@
                },
                None => r is Err && r->Err_0 is NotFoundError && final(self)@ == old(self)@,
            },
    {
        let name = match &user.username {
            Some(n) => n,
            None => {
                return Err(AppError::NotFoundError("Could not find user".to_string()));
            },
        };
        let i = match self.index_of(name.as_str()) {
            Some(i) => i,
            None => {
                return Err(AppError::NotFoundError("Could not find user".to_string()));
            },
        };
        let ghost pw = string_opt_view(user.password);
        let ghost av = bytes_view(user.avatar);
        let old_user = &self.users[i];
        let password = match &user.password {
            Some(p) => p.clone(),
            None => old_user.password.clone(),
        };
        let avatar = match &user.avatar {
            Some(a) => copy_bytes(&Some(a.clone())),
            None => copy_bytes(&old_user.avatar),
        };
        let updated = User {
            username: old_user.username.clone(),
            password,
            avatar,
            joined: old_user.joined,
        };
        assert(updated@ == updated_user(old(self)@[i as int], pw, av));
        self.users.set(i, updated);
        assert(self@ =~= old(self)@.map_values(
            |u: UserView| if u.username == name@ { updated_user(u, pw, av) } else { u },
        ));
        Ok(())
    }
}

} // verus!

//! The session store: opaque tokens, each bound to one username.
use vstd::prelude::*;
use crate::error::AppError;
use crate::model::{Session, SessionView, User, UserView};
use crate::user_repository::{UserRepository, find_user, has_user, user_opt_view};

verus! {

/// Some session of `sessions` has the token `token`.
pub open spec fn has_token(sessions: Seq<SessionView>, token: Seq<char>) -> bool {
    exists|i: int| 0 <= i < sessions.len() && #[trigger] sessions[i].session_id == token
}

/// The username that `token` is bound to in `sessions`, if any.
pub open spec fn session_owner(sessions: Seq<SessionView>, token: Seq<char>) -> Option<Seq<char>> {
    if has_token(sessions, token) {
        Some(
            sessions[choose|i: int|
                0 <= i < sessions.len() && #[trigger] sessions[i].session_id == token].username,
        )
    } else {
        None
    }
}

/// No two sessions share a token.
pub open spec fn unique_tokens(sessions: Seq<SessionView>) -> bool {
    forall|i: int, j: int|
        0 <= i < sessions.len() && 0 <= j < sessions.len() && #[trigger] sessions[i].session_id
            == #[trigger] sessions[j].session_id ==> i == j
}

/// The sessions of `sessions` that are not bound to `name`.
pub open spec fn without_user(sessions: Seq<SessionView>, name: Seq<char>) -> Seq<SessionView> {
    sessions.filter(|s: SessionView| s.username != name)
}

/// The sessions of `sessions` whose token is not `token`.
pub open spec fn without_token(sessions: Seq<SessionView>, token: Seq<char>) -> Seq<SessionView> {
    sessions.filter(|s: SessionView| s.session_id != token)
}

/// What `token` resolves to: the user its session is bound to, if both exist.
pub open spec fn resolve(
    sessions: Seq<SessionView>,
    users: Seq<UserView>,
    token: Seq<char>,
) -> Option<UserView> {
    match session_owner(sessions, token) {
        Some(name) => find_user(users, name),
        None => None,
    }
}

/// A finding of `session_owner` at a known index.
pub proof fn lemma_session_owner_at(sessions: Seq<SessionView>, token: Seq<char>, i: int)
    requires
        unique_tokens(sessions),
        0 <= i < sessions.len(),
        sessions[i].session_id == token,
    ensures
        session_owner(sessions, token) == Some(sessions[i].username),
{
    assert(has_token(sessions, token));
}

/// Every session of `sessions` is bound to a user of `users`.
pub open spec fn sessions_reference_users(sessions: Seq<SessionView>, users: Seq<UserView>) -> bool {
    forall|i: int| 0 <= i < sessions.len() ==> has_user(users, #[trigger] sessions[i].username)
}

/// What a filter keeps comes from the filtered sequence and passes the test.
pub proof fn lemma_filter_member(s: Seq<SessionView>, pred: spec_fn(SessionView) -> bool, i: int)
    requires
        0 <= i < s.filter(pred).len(),
    ensures
        pred(s.filter(pred)[i]),
        exists|j: int| 0 <= j < s.len() && s[j] == #[trigger] s.filter(pred)[i],
{
    let x = s.filter(pred)[i];
    assert(s.filter(pred).contains(x));
    s.lemma_filter_contains_rev(pred, x);
    s.lemma_filter_pred(pred, i);
}

/// A token that no session holds is held by none of a filter's sessions.
pub proof fn lemma_filter_keeps_no_token(
    s: Seq<SessionView>,
    pred: spec_fn(SessionView) -> bool,
    token: Seq<char>,
)
    requires
        !has_token(s, token),
    ensures
        !has_token(s.filter(pred), token),
{
    if has_token(s.filter(pred), token) {
        let i = choose|i: int|
            0 <= i < s.filter(pred).len() && #[trigger] s.filter(pred)[i].session_id == token;
        lemma_filter_member(s, pred, i);
        let j = choose|j: int| 0 <= j < s.len() && s[j] == s.filter(pred)[i];
        assert(s[j].session_id == token);
    }
}

/// Removing sessions keeps every remaining one bound to a user.
pub proof fn lemma_filter_keeps_refs(
    s: Seq<SessionView>,
    users: Seq<UserView>,
    pred: spec_fn(SessionView) -> bool,
)
    requires
        sessions_reference_users(s, users),
    ensures
        sessions_reference_users(s.filter(pred), users),
{
    assert forall|i: int| 0 <= i < s.filter(pred).len() implies has_user(
        users,
        #[trigger] s.filter(pred)[i].username,
    ) by {
        lemma_filter_member(s, pred, i);
        let j = choose|j: int| 0 <= j < s.len() && s[j] == s.filter(pred)[i];
        assert(has_user(users, s[j].username));
    }
}

/// Once the session of `token` is removed, the token is bound no more.
pub proof fn lemma_without_token_absent(s: Seq<SessionView>, token: Seq<char>)
    ensures
        !has_token(without_token(s, token), token),
{
    let pred = |x: SessionView| x.session_id != token;
    if has_token(without_token(s, token), token) {
        let i = choose|i: int|
            0 <= i < without_token(s, token).len() && #[trigger] without_token(s, token)[i].session_id
                == token;
        lemma_filter_member(s, pred, i);
    }
}

/// Removing the session of a token that is not bound changes nothing.
pub proof fn lemma_without_token_unchanged(s: Seq<SessionView>, token: Seq<char>)
    requires
        !has_token(s, token),
    ensures
        without_token(s, token) == s,
    decreases s.len(),
{
    reveal(Seq::filter);
    if s.len() > 0 {
        let d = s.drop_last();
        assert forall|i: int| 0 <= i < d.len() implies #[trigger] d[i].session_id != token by {
            assert(d[i] == s[i]);
        }
        lemma_without_token_unchanged(d, token);
        assert(s.last() == s[s.len() - 1]);
        assert(d.push(s.last()) =~= s);
    }
}

/// Removing the sessions of `name` unbinds every token that was bound to it.
pub proof fn lemma_without_user_unbinds(s: Seq<SessionView>, name: Seq<char>, token: Seq<char>)
    requires
        unique_tokens(s),
        session_owner(s, token) == Some(name),
    ensures
        !has_token(without_user(s, name), token),
{
    let pred = |x: SessionView| x.username != name;
    let f = without_user(s, name);
    if has_token(f, token) {
        let i = choose|i: int| 0 <= i < f.len() && #[trigger] f[i].session_id == token;
        lemma_filter_member(s, pred, i);
        let j = choose|j: int| 0 <= j < s.len() && s[j] == s.filter(pred)[i];
        let c = choose|c: int| 0 <= c < s.len() && #[trigger] s[c].session_id == token;
        assert(s[j].session_id == s[c].session_id);
    }
}

/// The live sessions.
pub struct SessionRepository {
    sessions: Vec<Session>,
}

impl View for SessionRepository {
    type V = Seq<SessionView>;

    closed spec fn view(&self) -> Seq<SessionView> {
        self.sessions@.map_values(|s: Session| s@)
    }
}

impl SessionRepository {
    /// The store's invariant: tokens are unique.
    pub open spec fn wf(&self) -> bool {
        unique_tokens(self@)
    }

    /// An empty store.
    pub fn new() -> (r: SessionRepository)
        ensures
            r.wf(),
            r@ == Seq::<SessionView>::empty(),
    {
        let r = SessionRepository { sessions: Vec::new() };
        assert(r@ =~= Seq::<SessionView>::empty());
        r
    }

    /// Keeps the sessions whose username (when `by_user`) or whose token
    /// (otherwise) differs from `key`.
    fn retain_other(&mut self, key: &String, by_user: bool)
        requires
            old(self).wf(),
        ensures
            final(self).wf(),
            by_user ==> final(self)@ == without_user(old(self)@, key@),
            !by_user ==> final(self)@ == without_token(old(self)@, key@),
    {
        let ghost s = self@;
        let ghost pred = if by_user {
            |x: SessionView| x.username != key@
        } else {
            |x: SessionView| x.session_id != key@
        };
        let mut kept: Vec<Session> = Vec::new();
        let mut i: usize = 0;
        while i < self.sessions.len()
            invariant
                s == self@,
                unique_tokens(s),
                i <= s.len(),
                pred == (if by_user {
                    |x: SessionView| x.username != key@
                } else {
                    |x: SessionView| x.session_id != key@
                }),
                kept@.map_values(|x: Session| x@) == s.subrange(0, i as int).filter(pred),
                unique_tokens(kept@.map_values(|x: Session| x@)),
                forall|k: int|
                    0 <= k < kept@.len() ==> exists|j: int|
                        0 <= j < i && #[trigger] kept@[k]@ == s[j],
            decreases s.len() - i,
        {
            let cur = &self.sessions[i];
            let keep = if by_user {
                !(cur.username == *key)
            } else {
                !(cur.session_id == *key)
            };
            proof {
                assert(s.subrange(0, i + 1) == s.subrange(0, i as int).push(s[i as int]));
                s.subrange(0, i as int).lemma_filter_push(s[i as int], pred);
            }
            if keep {
                let ghost before = kept@.map_values(|x: Session| x@);
                kept.push(Session {
                    session_id: cur.session_id.clone(),
                    username: cur.username.clone(),
                });
                proof {
                    let after = kept@.map_values(|x: Session| x@);
                    assert(after =~= before.push(s[i as int]));
                    assert forall|a: int, b: int|
                        0 <= a < after.len() && 0 <= b < after.len() && #[trigger] after[a].session_id
                            == #[trigger] after[b].session_id implies a == b by {
                        if a < before.len() && b == before.len() {
                            assert(exists|j: int| 0 <= j < i && kept@[a]@ == s[j]);
                            let j = choose|j: int| 0 <= j < i && kept@[a]@ == s[j];
                            assert(s[j].session_id == s[i as int].session_id);
                        } else if b < before.len() && a == before.len() {
                            assert(exists|j: int| 0 <= j < i && kept@[b]@ == s[j]);
                            let j = choose|j: int| 0 <= j < i && kept@[b]@ == s[j];
                            assert(s[j].session_id == s[i as int].session_id);
                        }
                    }
                    assert forall|k: int| 0 <= k < kept@.len() implies exists|j: int|
                        0 <= j < i + 1 && #[trigger] kept@[k]@ == s[j] by {
                        if k < before.len() {
                            assert(kept@[k]@ == before[k]);
                            let j = choose|j: int| 0 <= j < i && before[k] == s[j];
                            assert(0 <= j < i + 1 && kept@[k]@ == s[j]);
                        } else {
                            assert(kept@[k]@ == s[i as int]);
                        }
                    }
                }
            } else {
                assert(pred(s[i as int]) == keep);
            }
            i = i + 1;
        }
        assert(s.subrange(0, s.len() as int) =~= s);
        self.sessions = kept;
    }

    /// Binds `session.session_id` to `session.username`, after removing every
    /// session of that username, so that a user has one live session at most.
    /// Fails with `StorageError`, nothing changed, where a live session
    /// already holds the token.
    pub fn add_session(&mut self, session: Session) -> (r: Result<(), AppError>)
        requires
            old(self).wf(),
        ensures
            final(self).wf(),
            has_token(old(self)@, session.session_id@) ==> r is Err && r->Err_0 is StorageError
                && final(self)@ == old(self)@,
            !has_token(old(self)@, session.session_id@) ==> r is Ok && final(self)@ == without_user(
                old(self)@,
                session.username@,
            ).push(session@),
    {
        let mut i: usize = 0;
        while i < self.sessions.len()
            invariant
                self.wf(),
                self@ == old(self)@,
                i <= self@.len(),
                forall|k: int| 0 <= k < i ==> #[trigger] self@[k].session_id != session.session_id@,
            decreases self@.len() - i,
        {
            if self.sessions[i].session_id == session.session_id {
                assert(self@[i as int].session_id == session.session_id@);
                return Err(AppError::StorageError("Session id already in use".to_string()));
            }
            i = i + 1;
        }
        proof {
            lemma_filter_keeps_no_token(
                self@,
                |x: SessionView| x.username != session.username@,
                session.session_id@,
            );
        }
        self.retain_other(&session.username, true);
        let ghost before = self@;
        self.sessions.push(session);
        assert(self@ =~= before.push(session@));
        proof {
            let t = self@;
            assert forall|a: int, b: int|
                0 <= a < t.len() && 0 <= b < t.len() && #[trigger] t[a].session_id
                    == #[trigger] t[b].session_id implies a == b by {
                if a < before.len() && b == before.len() {
                    assert(t[a] == before[a]);
                } else if b < before.len() && a == before.len() {
                    assert(t[b] == before[b]);
                } else if a < before.len() && b < before.len() {
                    assert(t[a] == before[a] && t[b] == before[b]);
                }
            }
        }
        Ok(())
    }

    /// Removes the session with token `session_id`; a token that is not
    /// bound is no error.
    pub fn delete_session(&mut self, session_id: &str)
        requires
            old(self).wf(),
        ensures
            final(self).wf(),
            final(self)@ == without_token(old(self)@, session_id@),
    {
        let key = session_id.to_owned();
        self.retain_other(&key, false);
    }

    /// The user that the session `session_id` is bound to, if both exist.
    pub fn get_user_by_session(&self, session_id: &str, users: &UserRepository) -> (r: Option<User>)
        requires
            self.wf(),
            users.wf(),
        ensures
            user_opt_view(r) == resolve(self@, users@, session_id@),
    {
        let key = session_id.to_owned();
        let mut i: usize = 0;
        while i < self.sessions.len()
            invariant
                self.wf(),
                users.wf(),
                key@ == session_id@,
                i <= self@.len(),
                forall|k: int| 0 <= k < i ==> #[trigger] self@[k].session_id != session_id@,
            decreases self@.len() - i,
        {
            if self.sessions[i].session_id == key {
                proof {
                    lemma_session_owner_at(self@, session_id@, i as int);
                }
                return users.get_user_by_username(self.sessions[i].username.as_str());
            }
            i = i + 1;
        }
        None
    }
}

} // verus!

//! The post store, kept newest first.
use vstd::prelude::*;
use crate::error::AppError;
use crate::model::{NewPost, Post, PostView, bytes_view, posts_view};
use crate::pagination::{page_bounds, page_of, valid_page_size, POSTS_PER_PAGE};
use crate::user_repository::{UserRepository, has_user};

verus! {

/// `a` comes before `b` in a feed: it is newer, or as new with a larger id.
pub open spec fn newer(a: PostView, b: PostView) -> bool {
    a.date > b.date || (a.date == b.date && a.id > b.id)
}

/// `s` is in feed order, newest first.
pub open spec fn newest_first(s: Seq<PostView>) -> bool {
    forall|i: int, j: int| 0 <= i < j < s.len() ==> newer(#[trigger] s[i], #[trigger] s[j])
}

/// No two posts of `s` share an id.
pub open spec fn unique_ids(s: Seq<PostView>) -> bool {
    forall|i: int, j: int|
        0 <= i < s.len() && 0 <= j < s.len() && #[trigger] s[i].id == #[trigger] s[j].id ==> i == j
}

/// Some post of `s` has the id `id`.
pub open spec fn has_post(s: Seq<PostView>, id: int) -> bool {
    exists|i: int| 0 <= i < s.len() && #[trigger] s[i].id == id
}

/// The post of `s` with the id `id`, if any.
pub open spec fn find_post(s: Seq<PostView>, id: int) -> Option<PostView> {
    if has_post(s, id) {
        Some(s[choose|i: int| 0 <= i < s.len() && #[trigger] s[i].id == id])
    } else {
        None
    }
}

/// The posts of `s` owned by `name`, in the order of `s`.
pub open spec fn posts_of(s: Seq<PostView>, name: Seq<char>) -> Seq<PostView> {
    s.filter(|p: PostView| p.username == name)
}

/// The abstract value of an optional post.
pub open spec fn post_opt_view(p: Option<Post>) -> Option<PostView> {
    match p {
        Some(p) => Some(p@),
        None => None,
    }
}

/// The record that `post` becomes when the store gives it the id `id`.
pub open spec fn stored_post(post: NewPost, id: int) -> PostView {
    PostView {
        id,
        title: post.title@,
        body: post.body@,
        date: post.date as int,
        image: bytes_view(post.image),
        username: post.username@,
    }
}

/// A finding of `find_post` at a known index.
pub proof fn lemma_find_post_at(s: Seq<PostView>, id: int, i: int)
    requires
        unique_ids(s),
        0 <= i < s.len(),
        s[i].id == id,
    ensures
        find_post(s, id) == Some(s[i]),
{
    assert(has_post(s, id));
}

/// Copies the posts `v[start..end]`.
fn copy_range(v: &Vec<Post>, start: usize, end: usize) -> (r: Vec<Post>)
    requires
        start <= end <= v@.len(),
    ensures
        posts_view(r@) == posts_view(v@).subrange(start as int, end as int),
{
    let mut r: Vec<Post> = Vec::new();
    let mut i: usize = start;
    while i < end
        invariant
            start <= i <= end <= v@.len(),
            posts_view(r@) == posts_view(v@).subrange(start as int, i as int),
        decreases end - i,
    {
        let c = v[i].copy();
        let ghost before = r@;
        r.push(c);
        assert(posts_view(r@) =~= posts_view(before).push(c@));
        assert(posts_view(r@) =~= posts_view(v@).subrange(start as int, i + 1));
        i = i + 1;
    }
    r
}

/// The posts, newest first.
pub struct PostRepository {
    posts: Vec<Post>,
    next_id: i32,
}

impl View for PostRepository {
    type V = Seq<PostView>;

    closed spec fn view(&self) -> Seq<PostView> {
        posts_view(self.posts@)
    }
}

impl PostRepository {
    /// The id that the next post will get.
    pub closed spec fn next_id(&self) -> int {
        self.next_id as int
    }

    /// The store's invariant: newest first, ids unique and below the next
    /// id, and fewer posts than ids handed out.
    pub open spec fn wf(&self) -> bool {
        &&& newest_first(self@)
        &&& unique_ids(self@)
        &&& forall|i: int| 0 <= i < self@.len() ==> 1 <= #[trigger] self@[i].id < self.next_id()
        &&& 1 <= self.next_id() <= i32::MAX
        &&& self@.len() < self.next_id()
    }

    /// An empty store.
    pub fn new() -> (r: PostRepository)
        ensures
            r.wf(),
            r@ == Seq::<PostView>::empty(),
            r.next_id() == 1,
    {
        let r = PostRepository { posts: Vec::new(), next_id: 1 };
        assert(r@ =~= Seq::<PostView>::empty());
        r
    }

    /// Every post, newest first.
    pub fn fetch_all_posts(&self) -> (r: Vec<Post>)
        ensures
            posts_view(r@) == self@,
    {
        let r = copy_range(&self.posts, 0, self.posts.len());
        assert(self@.subrange(0, self@.len() as int) =~= self@);
        r
    }

    /// Page `page` of the global feed, ten posts a page, newest first.
    /// Fails with `ValidationError` for a page below 1.
    pub fn fetch_posts_on_page(&self, page: i32) -> (r: Result<Vec<Post>, AppError>)
        ensures
            page < 1 ==> r is Err && r->Err_0 is ValidationError,
            page >= 1 ==> r is Ok && posts_view(r->Ok_0@) == page_of(
                self@,
                page as int,
                POSTS_PER_PAGE as int,
            ),
    {
        if page < 1 {
            return Err(AppError::ValidationError("Page must be at least 1".to_string()));
        }
        let (start, end) = page_bounds(self.posts.len(), page, POSTS_PER_PAGE);
        Ok(copy_range(&self.posts, start, end))
    }

    /// The post with id `post_id`, if any.
    pub fn fetch_post(&self, post_id: i32) -> (r: Option<Post>)
        requires
            self.wf(),
        ensures
            post_opt_view(r) == find_post(self@, post_id as int),
    {
        let mut i: usize = 0;
        while i < self.posts.len()
            invariant
                self.wf(),
                i <= self@.len(),
                forall|k: int| 0 <= k < i ==> #[trigger] self@[k].id != post_id,
            decreases self@.len() - i,
        {
            if self.posts[i].id == post_id {
                proof {
                    lemma_find_post_at(self@, post_id as int, i as int);
                }
                return Some(self.posts[i].copy());
            }
            i = i + 1;
        }
        None
    }

    /// Stores `post` under the next id, in its place in feed order. Fails
    /// with `NotFoundError` where `users` has no user of that name, and with
    /// `StorageError` once every id is used; the store is unchanged then.
    pub fn create_post(&mut self, post: NewPost, users: &UserRepository) -> (r: Result<(), AppError>)
        requires
            old(self).wf(),
            users.wf(),
        ensures
            final(self).wf(),
            !has_user(users@, post.username@) ==> {
                &&& r is Err && r->Err_0 is NotFoundError
                &&& final(self)@ == old(self)@
                &&& final(self).next_id() == old(self).next_id()
            },
            has_user(users@, post.username@) && old(self).next_id() == i32::MAX ==> {
                &&& r is Err && r->Err_0 is StorageError
                &&& final(self)@ == old(self)@
                &&& final(self).next_id() == old(self).next_id()
            },
            has_user(users@, post.username@) && old(self).next_id() < i32::MAX ==> {
                &&& r is Ok
                &&& final(self).next_id() == old(self).next_id() + 1
                &&& exists|k: int|
                    0 <= k <= old(self)@.len() && final(self)@ == old(self)@.insert(
                        k,
                        stored_post(post, old(self).next_id()),
                    )
            },
    {
        if users.get_user_by_username(post.username.as_str()).is_none() {
            return Err(AppError::NotFoundError("Could not find the post's owner".to_string()));
        }
        if self.next_id == i32::MAX {
            return Err(AppError::StorageError("No post id is left".to_string()));
        }
        let ghost s = self@;
        let ghost np = stored_post(post, self.next_id as int);
        let p = Post {
            id: self.next_id,
            title: post.title,
            body: post.body,
            date: post.date,
            image: post.image,
            username: post.username,
        };
        assert(p@ == np);
        let mut k: usize = 0;
        while k < self.posts.len() && (self.posts[k].date > p.date || (self.posts[k].date
            == p.date && self.posts[k].id > p.id))
            invariant
                s == self@,
                p@ == np,
                k <= s.len(),
                forall|i: int| 0 <= i < k ==> newer(#[trigger] s[i], np),
            decreases s.len() - k,
        {
            k = k + 1;
        }
        proof {
            assert forall|i: int| k <= i < s.len() implies newer(np, #[trigger] s[i]) by {
                assert(s[i].id < np.id);
                if i > k {
                    assert(newer(s[k as int], s[i]));
                }
            }
        }
        self.posts.insert(k, p);
        self.next_id = self.next_id + 1;
        proof {
            let t = self@;
            assert(t =~= s.insert(k as int, np));
            assert forall|i: int, j: int| 0 <= i < j < t.len() implies newer(#[trigger] t[i], #[trigger] t[j]) by {
                if j < k {
                } else if i < k && j == k {
                } else if i < k && j > k {
                    assert(t[j] == s[j - 1]);
                } else if i == k {
                    assert(t[j] == s[j - 1]);
                } else {
                    assert(t[i] == s[i - 1] && t[j] == s[j - 1]);
                }
            }
            assert forall|i: int, j: int|
                0 <= i < t.len() && 0 <= j < t.len() && #[trigger] t[i].id == #[trigger] t[j].id implies i == j by {
                if i < k && j < k {
                } else if i == k && j != k {
                    if j < k { assert(t[j] == s[j]); } else { assert(t[j] == s[j - 1]); }
                } else if j == k && i != k {
                    if i < k { assert(t[i] == s[i]); } else { assert(t[i] == s[i - 1]); }
                } else if i != k && j != k {
                    let a = if i < k { i } else { i - 1 };
                    let b = if j < k { j } else { j - 1 };
                    assert(t[i] == s[a] && t[j] == s[b]);
                }
            }
            assert forall|i: int| 0 <= i < t.len() implies 1 <= #[trigger] t[i].id < self.next_id() by {
                if i < k { assert(t[i] == s[i]); } else if i > k { assert(t[i] == s[i - 1]); }
            }
        }
        Ok(())
    }

    /// The posts of `username`, newest first.
    fn posts_owned_by(&self, username: &str) -> (r: Vec<Post>)
        ensures
            posts_view(r@) == posts_of(self@, username@),
    {
        let target = username.to_owned();
        let ghost s = self@;
        let ghost pred = |p: PostView| p.username == username@;
        let mut r: Vec<Post> = Vec::new();
        let mut i: usize = 0;
        while i < self.posts.len()
            invariant
                s == self@,
                target@ == username@,
                pred == (|p: PostView| p.username == username@),
                i <= s.len(),
                posts_view(r@) == s.subrange(0, i as int).filter(pred),
            decreases s.len() - i,
        {
            proof {
                assert(s.subrange(0, i + 1) == s.subrange(0, i as int).push(s[i as int]));
                s.subrange(0, i as int).lemma_filter_push(s[i as int], pred);
            }
            if self.posts[i].username == target {
                let c = self.posts[i].copy();
                let ghost before = r@;
                r.push(c);
                assert(posts_view(r@) =~= posts_view(before).push(c@));
            }
            i = i + 1;
        }
        assert(s.subrange(0, s.len() as int) =~= s);
        r
    }

    /// How many posts `username` owns.
    pub fn get_post_count_by_username(&self, username: &str) -> (r: i64)
        requires
            self.wf(),
        ensures
            r == posts_of(self@, username@).len(),
    {
        let owned = self.posts_owned_by(username);
        proof {
            self@.lemma_filter_len(|p: PostView| p.username == username@);
        }
        owned.len() as i64
    }

    /// Page `page` of the posts of `username`, newest first, in pages of
    /// `page_size` posts (or all of them with the unbounded size). Fails with
    /// `ValidationError` for a page below 1 or a page size that is neither
    /// positive nor the unbounded sentinel.
    pub fn get_posts_by_username(&self, username: &str, page: i32, page_size: i64) -> (r: Result<
        Vec<Post>,
        AppError,
    >)
        ensures
            page < 1 || !valid_page_size(page_size as int) ==> r is Err && r->Err_0 is ValidationError,
            page >= 1 && valid_page_size(page_size as int) ==> r is Ok && posts_view(r->Ok_0@)
                == page_of(posts_of(self@, username@), page as int, page_size as int),
    {
        if page < 1 {
            return Err(AppError::ValidationError("Page must be at least 1".to_string()));
        }
        if !(page_size > 0 || page_size == crate::pagination::UNBOUNDED_PAGE_SIZE) {
            return Err(AppError::ValidationError("Page size must be positive".to_string()));
        }
        let owned = self.posts_owned_by(username);
        let (start, end) = page_bounds(owned.len(), page, page_size);
        Ok(copy_range(&owned, start, end))
    }

    /// Removes the post with id `post_id`, owned by `user`. Fails with
    /// `NotFoundError` where there is no such post and with `Forbidden` where
    /// another user owns it; nothing changes then.
    pub fn delete_post_belonging_to_username(&mut self, post_id: i32, user: &str) -> (r: Result<
        (),
        AppError,
    >)
        requires
            old(self).wf(),
        ensures
            final(self).wf(),
            final(self).next_id() == old(self).next_id(),
            match find_post(old(self)@, post_id as int) {
                Some(p) => if p.username == user@ {
                    r is Ok && exists|k: int|
                        0 <= k < old(self)@.len() && old(self)@[k].id == post_id && final(self)@
                            == old(self)@.remove(k)
                } else {
                    r == Err::<(), AppError>(AppError::Forbidden) && final(self)@ == old(self)@
                },
                None => r is Err && r->Err_0 is NotFoundError && final(self)@ == old(self)@,
            },
    {
        let owner = user.to_owned();
        let ghost s = self@;
        let mut i: usize = 0;
        while i < self.posts.len()
            invariant
                s == self@,
                s == old(self)@,
                self.next_id() == old(self).next_id(),
                owner@ == user@,
                self.wf(),
                i <= s.len(),
                forall|k: int| 0 <= k < i ==> #[trigger] s[k].id != post_id,
            decreases s.len() - i,
        {
            if self.posts[i].id == post_id {
                proof {
                    lemma_find_post_at(s, post_id as int, i as int);
                }
                if !(self.posts[i].username == owner) {
                    return Err(AppError::Forbidden);
                }
                {
                    self.posts.remove(i);
                    proof {
                        let t = self@;
                        assert(t =~= s.remove(i as int));
                        assert forall|a: int, b: int| 0 <= a < b < t.len() implies newer(#[trigger] t[a], #[trigger] t[b]) by {
                            let a2 = if a < i { a } else { a + 1 };
                            let b2 = if b < i { b } else { b + 1 };
                            assert(t[a] == s[a2] && t[b] == s[b2]);
                        }
                        assert forall|a: int, b: int|
                            0 <= a < t.len() && 0 <= b < t.len() && #[trigger] t[a].id == #[trigger] t[b].id implies a == b by {
                            let a2 = if a < i { a } else { a + 1 };
                            let b2 = if b < i { b } else { b + 1 };
                            assert(t[a] == s[a2] && t[b] == s[b2]);
                        }
                        assert forall|a: int| 0 <= a < t.len() implies 1 <= #[trigger] t[a].id < self.next_id() by {
                            let a2 = if a < i { a } else { a + 1 };
                            assert(t[a] == s[a2]);
                        }
                        assert(0 <= i < s.len() && s[i as int].id == post_id && t == s.remove(i as int));
                    }
                }
                return Ok(());
            }
            i = i + 1;
        }
        Err(AppError::NotFoundError("Could not find post".to_string()))
    }
}

} // verus!

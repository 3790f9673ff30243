//! Browsing, creating and deleting posts.
use vstd::prelude::*;
use crate::error::AppError;
use crate::model::{NewPost, Post, PostView, bytes_view, posts_view};
use crate::pagination::{page_of, valid_page_size, POSTS_PER_PAGE};
use crate::platform::now_micros;
use crate::user_repository::has_user;
use crate::user_service::UserService;
use crate::post_repository::{
    PostRepository, find_post, newest_first, post_opt_view, posts_of, stored_post, unique_ids,
};

verus! {

/// The record that a post of `username` with these fields becomes, under
/// the id `id` and the creation instant `date`.
pub open spec fn new_post_view(
    id: int,
    title: Seq<char>,
    body: Seq<char>,
    date: int,
    image: Option<Seq<u8>>,
    username: Seq<char>,
) -> PostView {
    PostView { id, title, body, date, image, username }
}

/// The posts.
pub struct PostService {
    post_repository: PostRepository,
}

impl PostService {
    /// The posts, newest first.
    pub closed spec fn posts(&self) -> Seq<PostView> {
        self.post_repository@
    }

    /// The id that the next post will get.
    pub closed spec fn next_id(&self) -> int {
        self.post_repository.next_id()
    }

    /// The invariant of the store underneath.
    pub closed spec fn wf(&self) -> bool {
        self.post_repository.wf()
    }

    /// What the invariant gives: feed order, unique ids, and an id bound.
    pub proof fn lemma_wf(&self)
        requires
            self.wf(),
        ensures
            newest_first(self.posts()),
            unique_ids(self.posts()),
            1 <= self.next_id() <= i32::MAX,
    {
    }

    /// A service over `post_repository`.
    pub fn new(post_repository: PostRepository) -> (r: PostService)
        requires
            post_repository.wf(),
        ensures
            r.wf(),
            r.posts() == post_repository@,
            r.next_id() == post_repository.next_id(),
    {
        PostService { post_repository }
    }

    /// Every post, newest first.
    pub fn get_all_posts(&self) -> (r: Vec<Post>)
        ensures
            posts_view(r@) == self.posts(),
    {
        self.post_repository.fetch_all_posts()
    }

    /// Page `page` of the global feed, ten posts a page, newest first.
    /// Fails with `ValidationError` for a page below 1.
    pub fn get_posts_on_page(&self, page: i32) -> (r: Result<Vec<Post>, AppError>)
        ensures
            page < 1 ==> r is Err && r->Err_0 is ValidationError,
            page >= 1 ==> r is Ok && posts_view(r->Ok_0@) == page_of(
                self.posts(),
                page as int,
                POSTS_PER_PAGE as int,
            ),
    {
        self.post_repository.fetch_posts_on_page(page)
    }

    /// The post with id `id`, if any.
    pub fn get_post(&self, id: i32) -> (r: Option<Post>)
        requires
            self.wf(),
        ensures
            post_opt_view(r) == find_post(self.posts(), id as int),
    {
        self.post_repository.fetch_post(id)
    }

    /// The image of the post `id`; `None` where there is no such post or it
    /// has no image.
    pub fn get_post_image(&self, id: i32) -> (r: Option<Vec<u8>>)
        requires
            self.wf(),
        ensures
            bytes_view(r) == match find_post(self.posts(), id as int) {
                Some(p) => p.image,
                None => None,
            },
    {
        match self.post_repository.fetch_post(id) {
            None => None,
            Some(post) => post.image,
        }
    }

    /// Stores a post of `username`, created now, under the next id. Fails
    /// with `NotFoundError` where `users` has no user of that name, and with
    /// `StorageError` once every id is used; nothing is stored then.
    pub fn create_post(
        &mut self,
        title: String,
        body: String,
        image: Option<Vec<u8>>,
        username: String,
        users: &UserService,
    ) -> (r: Result<(), AppError>)
        requires
            old(self).wf(),
            users.wf(),
        ensures
            final(self).wf(),
            !has_user(users.users(), username@) ==> {
                &&& r is Err && r->Err_0 is NotFoundError
                &&& final(self).posts() == old(self).posts()
                &&& final(self).next_id() == old(self).next_id()
            },
            has_user(users.users(), username@) && old(self).next_id() == i32::MAX ==> {
                &&& r is Err && r->Err_0 is StorageError
                &&& final(self).posts() == old(self).posts()
                &&& final(self).next_id() == old(self).next_id()
            },
            has_user(users.users(), username@) && old(self).next_id() < i32::MAX ==> {
                &&& r is Ok
                &&& final(self).next_id() == old(self).next_id() + 1
                &&& exists|k: int, date: int|
                    0 <= k <= old(self).posts().len() && final(self).posts() == old(self).posts().insert(
                        k,
                        new_post_view(
                            old(self).next_id(),
                            title@,
                            body@,
                            date,
                            bytes_view(image),
                            username@,
                        ),
                    )
            },
    {
        let post = NewPost { title, body, image, username, date: now_micros() };
        let ghost d = post.date as int;
        let ghost np = stored_post(post, self.post_repository.next_id());
        let ghost before = self.post_repository@;
        let r = self.post_repository.create_post(post, users.user_repository());
        proof {
            if r is Ok {
                let k = choose|k: int|
                    0 <= k <= before.len() && self.post_repository@ == before.insert(k, np);
                assert(np == new_post_view(
                    old(self).next_id(),
                    title@,
                    body@,
                    d,
                    bytes_view(image),
                    username@,
                ));
                assert(0 <= k <= old(self).posts().len() && self.posts() == old(self).posts().insert(
                    k,
                    new_post_view(old(self).next_id(), title@, body@, d, bytes_view(image), username@),
                ));
            }
        }
        r
    }

    /// Page `page` of the posts of `username`, newest first, in pages of
    /// `page_size`. Fails with `ValidationError` for a page below 1 or a
    /// page size that is neither positive nor the unbounded sentinel.
    pub fn get_posts_of_user(&self, username: &str, page: i32, page_size: i64) -> (r: Result<
        Vec<Post>,
        AppError,
    >)
        ensures
            page < 1 || !valid_page_size(page_size as int) ==> r is Err && r->Err_0 is ValidationError,
            page >= 1 && valid_page_size(page_size as int) ==> r is Ok && posts_view(r->Ok_0@)
                == page_of(posts_of(self.posts(), username@), page as int, page_size as int),
    {
        self.post_repository.get_posts_by_username(username, page, page_size)
    }

    /// How many posts `username` owns.
    pub fn get_post_count_by_username(&self, username: &str) -> (r: i64)
        requires
            self.wf(),
        ensures
            r == posts_of(self.posts(), username@).len(),
    {
        self.post_repository.get_post_count_by_username(username)
    }

    /// Removes the post `post_id`, owned by `username`. Fails with
    /// `NotFoundError` where there is no such post and with `Forbidden` where
    /// another user owns it; nothing changes then.
    pub fn delete_post_of_user(&mut self, username: &str, post_id: i32) -> (r: Result<(), AppError>)
        requires
            old(self).wf(),
        ensures
            final(self).wf(),
            final(self).next_id() == old(self).next_id(),
            match find_post(old(self).posts(), post_id as int) {
                Some(p) => if p.username == username@ {
                    r is Ok && exists|k: int|
                        0 <= k < old(self).posts().len() && old(self).posts()[k].id == post_id
                            && final(self).posts() == old(self).posts().remove(k)
                } else {
                    r == Err::<(), AppError>(AppError::Forbidden) && final(self).posts() == old(self).posts()
                },
                None => r is Err && r->Err_0 is NotFoundError && final(self).posts() == old(self).posts(),
            },
    {
        self.post_repository.delete_post_belonging_to_username(post_id, username)
    }
}

} // verus!

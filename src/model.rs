//! The records of the blog: users, sessions and posts.
use vstd::prelude::*;

verus! {

/// The abstract value of a byte blob that may be absent.
pub open spec fn bytes_view(b: Option<Vec<u8>>) -> Option<Seq<u8>> {
    match b {
        Some(v) => Some(v@),
        None => None,
    }
}

/// The abstract value of a string that may be absent.
pub open spec fn string_opt_view(s: Option<String>) -> Option<Seq<char>> {
    match s {
        Some(s) => Some(s@),
        None => None,
    }
}

/// Copies an optional blob.
pub fn copy_bytes(b: &Option<Vec<u8>>) -> (r: Option<Vec<u8>>)
    ensures
        bytes_view(r) == bytes_view(*b),
{
    match b {
        Some(v) => {
            let c = v.clone();
            assert(c@ =~= v@);
            Some(c)
        },
        None => None,
    }
}

} // verus!

verus! {

/// A registered user. `password` holds the bcrypt hash, never the password;
/// `joined` is the sign-up day, counted in days from 1 January of year 1.
#[derive(Debug)]
pub struct User {
    pub username: String,
    pub password: String,
    pub avatar: Option<Vec<u8>>,
    pub joined: i32,
}

/// The abstract value of a [`User`].
pub struct UserView {
    pub username: Seq<char>,
    pub password: Seq<char>,
    pub avatar: Option<Seq<u8>>,
    pub joined: int,
}

impl View for User {
    type V = UserView;

    open spec fn view(&self) -> UserView {
        UserView {
            username: self.username@,
            password: self.password@,
            avatar: bytes_view(self.avatar),
            joined: self.joined as int,
        }
    }
}

impl User {
    /// A copy of this user.
    pub fn copy(&self) -> (r: User)
        ensures
            r@ == self@,
    {
        User {
            username: self.username.clone(),
            password: self.password.clone(),
            avatar: copy_bytes(&self.avatar),
            joined: self.joined,
        }
    }
}

/// A post. `date` is its creation instant in microseconds since the Unix
/// epoch, assigned by the server.
#[derive(Debug)]
pub struct Post {
    pub id: i32,
    pub title: String,
    pub body: String,
    pub date: i64,
    pub image: Option<Vec<u8>>,
    pub username: String,
}

/// The abstract value of a [`Post`].
pub struct PostView {
    pub id: int,
    pub title: Seq<char>,
    pub body: Seq<char>,
    pub date: int,
    pub image: Option<Seq<u8>>,
    pub username: Seq<char>,
}

impl View for Post {
    type V = PostView;

    open spec fn view(&self) -> PostView {
        PostView {
            id: self.id as int,
            title: self.title@,
            body: self.body@,
            date: self.date as int,
            image: bytes_view(self.image),
            username: self.username@,
        }
    }
}

impl Post {
    /// A copy of this post.
    pub fn copy(&self) -> (r: Post)
        ensures
            r@ == self@,
    {
        Post {
            id: self.id,
            title: self.title.clone(),
            body: self.body.clone(),
            date: self.date,
            image: copy_bytes(&self.image),
            username: self.username.clone(),
        }
    }
}

/// A post as its author submits it, before the store assigns an id.
#[derive(Debug)]
pub struct NewPost {
    pub title: String,
    pub body: String,
    pub date: i64,
    pub image: Option<Vec<u8>>,
    pub username: String,
}

/// The binding of an opaque session token to a username.
#[derive(Debug)]
pub struct Session {
    pub session_id: String,
    pub username: String,
}

/// The abstract value of a [`Session`]: its token and its username.
pub struct SessionView {
    pub session_id: Seq<char>,
    pub username: Seq<char>,
}

impl View for Session {
    type V = SessionView;

    open spec fn view(&self) -> SessionView {
        SessionView { session_id: self.session_id@, username: self.username@ }
    }
}

/// A partial update of the user named `username`: each field that is
/// `Some` replaces the stored one.
#[derive(Debug)]
pub struct UpdateUser {
    pub username: Option<String>,
    pub password: Option<String>,
    pub avatar: Option<Vec<u8>>,
}

/// A user's profile: the user, one page of their posts, and how many posts
/// they have in all.
#[derive(Debug)]
pub struct UserDTO {
    pub user: User,
    pub posts: Vec<Post>,
    pub total_posts: i64,
}

/// The page asked for in a feed query; absent means the first page.
#[derive(Debug)]
pub struct PaginatedPostSearch {
    pub page: Option<i32>,
}

/// The username and password of a login or sign-up form.
#[derive(Debug)]
pub struct AuthForm {
    pub username: String,
    pub password: String,
}

/// The abstract values of a sequence of posts.
pub open spec fn posts_view(s: Seq<Post>) -> Seq<PostView> {
    s.map_values(|p: Post| p@)
}

} // verus!

//! Posts: who may change one, and how a list of them is paged.

use vstd::prelude::*;
use crate::clock::{clamp_i64, clamp_to_i64, Timestamp};
use crate::errors::{AppError, AppErrorView};
use crate::ids::{hyphenated, Uuid};
use crate::repository::{found_by_id, unspecified};

verus! {

#[derive(Debug, Clone, PartialEq, Eq)]
pub struct Post {
    pub id: Uuid,
    pub title: String,
    pub content: String,
    pub is_published: bool,
    pub author_id: Uuid,
    pub created_at: Timestamp,
    pub updated_at: Timestamp,
}

pub struct PostView {
    pub id: u128,
    pub title: Seq<char>,
    pub content: Seq<char>,
    pub is_published: bool,
    pub author_id: u128,
    pub created_at: Timestamp,
    pub updated_at: Timestamp,
}

impl View for Post {
    type V = PostView;

    open spec fn view(&self) -> PostView {
        PostView {
            id: self.id.value,
            title: self.title@,
            content: self.content@,
            is_published: self.is_published,
            author_id: self.author_id.value,
            created_at: self.created_at,
            updated_at: self.updated_at,
        }
    }
}

#[derive(Debug, Clone, PartialEq, Eq)]
pub struct NewPost {
    pub title: String,
    pub content: String,
    pub author_id: Uuid,
}

pub struct NewPostView {
    pub title: Seq<char>,
    pub content: Seq<char>,
    pub author_id: u128,
}

impl View for NewPost {
    type V = NewPostView;

    open spec fn view(&self) -> NewPostView {
        NewPostView { title: self.title@, content: self.content@, author_id: self.author_id.value }
    }
}

/// The row of a post as the store creates it at `now`: unpublished.
pub open spec fn new_post_row(id: u128, new: NewPostView, now: Timestamp) -> PostView {
    PostView {
        id,
        title: new.title,
        content: new.content,
        is_published: false,
        author_id: new.author_id,
        created_at: now,
        updated_at: now,
    }
}

/// The row of a post after an update at `now`.
pub open spec fn updated_post(
    post: PostView,
    title: Seq<char>,
    content: Seq<char>,
    is_published: bool,
    now: Timestamp,
) -> PostView {
    PostView { title, content, is_published, updated_at: now, ..post }
}

/// `all` lists every post once, the newest first.
pub open spec fn lists_newest_first(posts: Map<u128, PostView>, all: Seq<PostView>) -> bool {
    &&& forall|i: int|
        0 <= i < all.len() ==> posts.contains_key(#[trigger] all[i].id) && posts[all[i].id]
            == all[i]
    &&& forall|i: int, j: int|
        0 <= i < j < all.len() ==> {
            &&& #[trigger] all[i].id != #[trigger] all[j].id
            &&& all[i].created_at.micros >= all[j].created_at.micros
        }
    &&& forall|id: u128| #[trigger]
        posts.contains_key(id) ==> exists|i: int| 0 <= i < all.len() && #[trigger] all[i].id == id
}

/// The bound `v` of a page, held within a list of `len` rows.
pub open spec fn within(v: int, len: nat) -> int {
    if v < 0 {
        0
    } else if v > len {
        len as int
    } else {
        v
    }
}

/// The page of `limit` rows that follows the first `offset` rows of `all`.
pub open spec fn page_of(all: Seq<PostView>, limit: i64, offset: i64) -> Seq<PostView> {
    all.subrange(within(offset as int, all.len()), within(offset + limit, all.len()))
}

/// `rows` is the page asked for of the posts, newest first.
pub open spec fn lists_page(
    posts: Map<u128, PostView>,
    limit: i64,
    offset: i64,
    rows: Seq<PostView>,
) -> bool {
    exists|all: Seq<PostView>| lists_newest_first(posts, all) && rows == #[trigger] page_of(
        all,
        limit,
        offset,
    )
}

/// The views of a list of posts.
pub open spec fn post_views(rows: Seq<Post>) -> Seq<PostView> {
    rows.map_values(|p: Post| p@)
}

/// The store of posts.
pub trait PostRepository {
    /// The posts, by identifier. A store that does not say what it holds
    /// stands for some map of which nothing is known.
    open spec fn posts(&self) -> Map<u128, PostView> {
        unspecified(self, ())
    }

    /// Whether this store answers every call that its rows admit. A store
    /// that does not say so is not reliable.
    open spec fn reliable(&self) -> bool {
        false
    }

    /// Adds a post under a fresh identifier.
    fn create(&mut self, new_post: NewPost, now: Timestamp) -> (r: Result<Post, AppError>)
        ensures
            final(self).reliable() == old(self).reliable(),
            old(self).reliable() ==> r is Ok,
            match r {
                Ok(post) => {
                    &&& !old(self).posts().contains_key(post.id.value)
                    &&& post@ == new_post_row(post.id.value, new_post@, now)
                    &&& final(self).posts() == old(self).posts().insert(post.id.value, post@)
                },
                Err(e) => e@.is_fault() && final(self).posts() == old(self).posts(),
            },
    ;

    fn find_by_id(&self, id: Uuid) -> (r: Result<Option<Post>, AppError>)
        ensures
            self.reliable() ==> r is Ok,
            match r {
                Ok(Some(post)) => found_by_id(self.posts(), id.value, Some(post@)) && post.id == id,
                Ok(None) => found_by_id(self.posts(), id.value, None::<PostView>),
                Err(e) => e@.is_fault(),
            },
    ;

    /// A page of the posts, newest first. The store refuses a negative
    /// limit or offset.
    fn find_all(&self, limit: i64, offset: i64) -> (r: Result<Vec<Post>, AppError>)
        ensures
            self.reliable() && limit >= 0 && offset >= 0 ==> r is Ok,
            match r {
                Ok(rows) => limit >= 0 && offset >= 0 && lists_page(
                    self.posts(),
                    limit,
                    offset,
                    post_views(rows@),
                ),
                Err(e) => e@.is_fault(),
            },
    ;

    /// Changes a post at `now` and returns the new row. The store refuses
    /// an unknown identifier.
    fn update(
        &mut self,
        id: Uuid,
        title: String,
        content: String,
        is_published: bool,
        now: Timestamp,
    ) -> (r: Result<Post, AppError>)
        ensures
            final(self).reliable() == old(self).reliable(),
            old(self).reliable() && old(self).posts().contains_key(id.value) ==> r is Ok,
            match r {
                Ok(post) => {
                    &&& old(self).posts().contains_key(id.value)
                    &&& post@ == updated_post(
                        old(self).posts()[id.value],
                        title@,
                        content@,
                        is_published,
                        now,
                    )
                    &&& final(self).posts() == old(self).posts().insert(id.value, post@)
                },
                Err(e) => e@.is_fault() && final(self).posts() == old(self).posts(),
            },
    ;

    /// Removes a post. An unknown identifier changes nothing.
    fn delete(&mut self, id: Uuid) -> (r: Result<(), AppError>)
        ensures
            final(self).reliable() == old(self).reliable(),
            old(self).reliable() ==> r is Ok,
            match r {
                Ok(()) => final(self).posts() == old(self).posts().remove(id.value),
                Err(e) => e@.is_fault() && final(self).posts() == old(self).posts(),
            },
    ;
}

/// The message that reports an unknown post.
pub open spec fn no_post_with_id(id: u128) -> Seq<char> {
    "Post with id "@ + hyphenated(id) + " not found"@
}

/// Whether `user_id` may change `post`: its author may, and an admin.
pub open spec fn may_change(post: PostView, user_id: u128, is_admin: bool) -> bool {
    post.author_id == user_id || is_admin
}

/// The length of a page: the one asked for where it is positive, else ten.
pub open spec fn page_limit(per_page: i64) -> i64 {
    if per_page > 0 {
        per_page
    } else {
        10
    }
}

/// The rows to skip before the page `page`: none for a page below the
/// second; held at the bounds of `i64`.
pub open spec fn page_offset(page: i64, per_page: i64) -> i64 {
    if page > 0 {
        clamp_i64((page - 1) * page_limit(per_page))
    } else {
        0
    }
}

pub struct PostService<R: PostRepository> {
    pub repo: R,
}

impl<R: PostRepository> PostService<R> {
    pub fn new(repo: R) -> (service: Self)
        ensures
            service.repo == repo,
    {
        PostService { repo }
    }

    /// Stores a new post of `author_id` at the current time.
    pub fn create_post(&mut self, title: String, content: String, author_id: Uuid) -> (r: Result<
        Post,
        AppError,
    >)
        ensures
            final(self).repo.reliable() == old(self).repo.reliable(),
            old(self).repo.reliable() ==> r is Ok,
            match r {
                Ok(post) => {
                    &&& !old(self).repo.posts().contains_key(post.id.value)
                    &&& post@ == new_post_row(
                        post.id.value,
                        NewPostView {
                            title: title@,
                            content: content@,
                            author_id: author_id.value,
                        },
                        post.created_at,
                    )
                    &&& final(self).repo.posts() == old(self).repo.posts().insert(
                        post.id.value,
                        post@,
                    )
                },
                Err(e) => e@.is_fault() && final(self).repo.posts() == old(self).repo.posts(),
            },
    {
        let new_post = NewPost { title, content, author_id };
        self.repo.create(new_post, Timestamp::now())
    }

    /// The post with this identifier; not found where there is none.
    pub fn get_post(&self, id: Uuid) -> (r: Result<Post, AppError>)
        ensures
            self.repo.reliable() ==> (r is Ok <==> self.repo.posts().contains_key(id.value)),
            match r {
                Ok(post) => found_by_id(self.repo.posts(), id.value, Some(post@)) && post.id == id,
                Err(e) => {
                    ||| {
                        &&& e@ == AppErrorView::NotFound(no_post_with_id(id.value))
                        &&& !self.repo.posts().contains_key(id.value)
                    }
                    ||| e@.is_fault() && !self.repo.reliable()
                },
            },
    {
        match self.repo.find_by_id(id)? {
            Some(post) => Ok(post),
            None => {
                let mut message = String::from_str("Post with id ");
                message.append(id.to_string().as_str());
                message.append(" not found");
                Err(AppError::NotFound(message))
            },
        }
    }

    /// The page `page` of the posts, newest first, `per_page` to a page.
    /// A length that is not positive means ten; a page below the first
    /// means the first.
    pub fn list_posts(&self, page: i64, per_page: i64) -> (r: Result<Vec<Post>, AppError>)
        ensures
            self.repo.reliable() ==> r is Ok,
            match r {
                Ok(rows) => lists_page(
                    self.repo.posts(),
                    page_limit(per_page),
                    page_offset(page, per_page),
                    post_views(rows@),
                ),
                Err(e) => e@.is_fault(),
            },
    {
        let limit: i64 = if per_page > 0 {
            per_page
        } else {
            10
        };
        let offset: i64 = if page > 0 {
            assert((page - 1) * limit >= 0) by (nonlinear_arith)
                requires
                    page > 0,
                    limit > 0,
            ;
            assert(-0x8000_0000_0000_0000_0000_0000_0000_0000 <= (page - 1) * limit
                <= 0x7fff_ffff_ffff_ffff_ffff_ffff_ffff_ffff) by (nonlinear_arith)
                requires
                    0 < page <= 0x7fff_ffff_ffff_ffff,
                    0 < limit <= 0x7fff_ffff_ffff_ffff,
            ;
            clamp_to_i64((page as i128 - 1) * (limit as i128))
        } else {
            0
        };
        self.repo.find_all(limit, offset)
    }

    /// Changes a post at the current time. Only the author and an admin
    /// may; an unknown post is not found.
    pub fn update_post(
        &mut self,
        id: Uuid,
        title: String,
        content: String,
        is_published: bool,
        user_id: Uuid,
        is_admin: bool,
    ) -> (r: Result<Post, AppError>)
        ensures
            final(self).repo.reliable() == old(self).repo.reliable(),
            old(self).repo.reliable() ==> (r is Ok <==> old(self).repo.posts().contains_key(
                id.value,
            ) && may_change(old(self).repo.posts()[id.value], user_id.value, is_admin)),
            match r {
                Ok(post) => {
                    &&& old(self).repo.posts().contains_key(id.value)
                    &&& may_change(old(self).repo.posts()[id.value], user_id.value, is_admin)
                    &&& post@ == updated_post(
                        old(self).repo.posts()[id.value],
                        title@,
                        content@,
                        is_published,
                        post.updated_at,
                    )
                    &&& final(self).repo.posts() == old(self).repo.posts().insert(id.value, post@)
                },
                Err(e) => {
                    &&& final(self).repo.posts() == old(self).repo.posts()
                    &&& {
                        ||| {
                            &&& e@ == AppErrorView::NotFound(no_post_with_id(id.value))
                            &&& !old(self).repo.posts().contains_key(id.value)
                        }
                        ||| {
                            &&& e@ == AppErrorView::Forbidden(
                                "You do not have permission to update this post"@,
                            )
                            &&& old(self).repo.posts().contains_key(id.value)
                            &&& !may_change(
                                old(self).repo.posts()[id.value],
                                user_id.value,
                                is_admin,
                            )
                        }
                        ||| e@.is_fault() && !old(self).repo.reliable()
                    }
                },
            },
    {
        let post = self.get_post(id)?;
        if post.author_id != user_id && !is_admin {
            return Err(AppError::forbidden("You do not have permission to update this post"));
        }
        self.repo.update(id, title, content, is_published, Timestamp::now())
    }

    /// Removes a post. Only the author and an admin may; an unknown post is
    /// not found.
    pub fn delete_post(&mut self, id: Uuid, user_id: Uuid, is_admin: bool) -> (r: Result<
        (),
        AppError,
    >)
        ensures
            final(self).repo.reliable() == old(self).repo.reliable(),
            old(self).repo.reliable() ==> (r is Ok <==> old(self).repo.posts().contains_key(
                id.value,
            ) && may_change(old(self).repo.posts()[id.value], user_id.value, is_admin)),
            match r {
                Ok(()) => {
                    &&& old(self).repo.posts().contains_key(id.value)
                    &&& may_change(old(self).repo.posts()[id.value], user_id.value, is_admin)
                    &&& final(self).repo.posts() == old(self).repo.posts().remove(id.value)
                },
                Err(e) => {
                    &&& final(self).repo.posts() == old(self).repo.posts()
                    &&& {
                        ||| {
                            &&& e@ == AppErrorView::NotFound(no_post_with_id(id.value))
                            &&& !old(self).repo.posts().contains_key(id.value)
                        }
                        ||| {
                            &&& e@ == AppErrorView::Forbidden(
                                "You do not have permission to delete this post"@,
                            )
                            &&& old(self).repo.posts().contains_key(id.value)
                            &&& !may_change(
                                old(self).repo.posts()[id.value],
                                user_id.value,
                                is_admin,
                            )
                        }
                        ||| e@.is_fault() && !old(self).repo.reliable()
                    }
                },
            },
    {
        let post = self.get_post(id)?;
        if post.author_id != user_id && !is_admin {
            return Err(AppError::forbidden("You do not have permission to delete this post"));
        }
        self.repo.delete(id)
    }
}

} // verus!

//! Posts as the datastore holds them and as they are shown.
use crate::jwt::Claims;
use crate::response::{ErrorKind, ErrorKindView};
use vstd::prelude::*;

verus! {

/// A point in time: whole seconds since the Unix epoch and the nanoseconds
/// within the second.
#[derive(Debug, Clone, Copy, PartialEq, Eq)]
pub struct Timestamp {
    pub secs: i64,
    pub nanos: u32,
}

/// A post that is about to be written: everything but the row id, which the
/// datastore assigns.
#[derive(Debug, Clone, PartialEq, Eq)]
pub struct NewPost {
    pub title: String,
    pub text: String,
    pub uuid: u128,
    pub image: String,
    pub user_id: i32,
    pub created_at: Timestamp,
}

/// The mathematical content of a [`NewPost`].
pub struct NewPostView {
    pub title: Seq<char>,
    pub text: Seq<char>,
    pub uuid: u128,
    pub image: Seq<char>,
    pub user_id: i32,
    pub created_at: Timestamp,
}

impl View for NewPost {
    type V = NewPostView;

    open spec fn view(&self) -> NewPostView {
        NewPostView {
            title: self.title@,
            text: self.text@,
            uuid: self.uuid,
            image: self.image@,
            user_id: self.user_id,
            created_at: self.created_at,
        }
    }
}

impl NewPost {
    /// A copy of this record.
    pub fn duplicate(&self) -> (copy: NewPost)
        ensures
            copy@ == self@,
    {
        NewPost {
            title: self.title.clone(),
            text: self.text.clone(),
            uuid: self.uuid,
            image: self.image.clone(),
            user_id: self.user_id,
            created_at: self.created_at,
        }
    }
}

/// A post as the datastore holds it.
#[derive(Debug, Clone, PartialEq, Eq)]
pub struct Post {
    pub id: i32,
    pub title: String,
    pub text: String,
    pub uuid: u128,
    pub image: String,
    pub user_id: i32,
    pub created_at: Timestamp,
}

/// The mathematical content of a [`Post`].
pub struct PostView {
    pub id: i32,
    pub title: Seq<char>,
    pub text: Seq<char>,
    pub uuid: u128,
    pub image: Seq<char>,
    pub user_id: i32,
    pub created_at: Timestamp,
}

impl View for Post {
    type V = PostView;

    open spec fn view(&self) -> PostView {
        PostView {
            id: self.id,
            title: self.title@,
            text: self.text@,
            uuid: self.uuid,
            image: self.image@,
            user_id: self.user_id,
            created_at: self.created_at,
        }
    }
}

/// What of a user may be shown beside a post.
#[derive(Debug, Clone, PartialEq, Eq)]
pub struct UserModel {
    pub name: String,
    pub email: String,
}

/// The mathematical content of a [`UserModel`].
pub struct UserModelView {
    pub name: Seq<char>,
    pub email: Seq<char>,
}

impl View for UserModel {
    type V = UserModelView;

    open spec fn view(&self) -> UserModelView {
        UserModelView { name: self.name@, email: self.email@ }
    }
}

/// A post as it is shown, with its owner's summary where that was asked for.
#[derive(Debug, Clone, PartialEq, Eq)]
pub struct PostModel {
    pub id: i32,
    pub title: String,
    pub text: String,
    pub uuid: u128,
    pub image: String,
    pub user_id: i32,
    pub created_at: Timestamp,
    pub user: Option<UserModel>,
}

/// The mathematical content of a [`PostModel`].
pub struct PostModelView {
    pub id: i32,
    pub title: Seq<char>,
    pub text: Seq<char>,
    pub uuid: u128,
    pub image: Seq<char>,
    pub user_id: i32,
    pub created_at: Timestamp,
    pub user: Option<UserModelView>,
}

impl View for PostModel {
    type V = PostModelView;

    open spec fn view(&self) -> PostModelView {
        PostModelView {
            id: self.id,
            title: self.title@,
            text: self.text@,
            uuid: self.uuid,
            image: self.image@,
            user_id: self.user_id,
            created_at: self.created_at,
            user: match self.user {
                Some(user) => Some(user@),
                None => None,
            },
        }
    }
}

impl PostView {
    /// The post as it is shown beside the given owner's summary.
    pub open spec fn shown(self, user: Option<UserModelView>) -> PostModelView {
        PostModelView {
            id: self.id,
            title: self.title,
            text: self.text,
            uuid: self.uuid,
            image: self.image,
            user_id: self.user_id,
            created_at: self.created_at,
            user,
        }
    }
}

/// The posts, each shown without its owner, in the same order.
pub open spec fn listing(posts: Seq<Post>) -> Seq<PostModelView> {
    Seq::new(posts.len(), |i: int| posts[i]@.shown(None))
}

/// The content of each shown post, in order.
pub open spec fn contents(models: Seq<PostModel>) -> Seq<PostModelView> {
    Seq::new(models.len(), |i: int| models[i]@)
}

/// The posts that a listing asks the datastore for.
#[derive(Debug, Clone, Copy, PartialEq, Eq)]
pub enum PostQuery {
    /// Every post.
    All,
    /// The posts of one user.
    ByOwner(i32),
    /// The post with this identifier.
    ByUuid(u128),
}

impl PostQuery {
    /// Whether the query asks for this post.
    pub open spec fn selects(self, post: PostView) -> bool {
        match self {
            PostQuery::All => true,
            PostQuery::ByOwner(owner) => post.user_id == owner,
            PostQuery::ByUuid(uuid) => post.uuid == uuid,
        }
    }

    /// Tells whether the query asks for this post.
    pub fn matches(&self, post: &Post) -> (selected: bool)
        ensures
            selected == self.selects(post@),
    {
        match self {
            PostQuery::All => true,
            PostQuery::ByOwner(owner) => post.user_id == *owner,
            PostQuery::ByUuid(uuid) => post.uuid == *uuid,
        }
    }

    /// The query behind the listing of the caller's own posts.
    pub fn own(claim: &Claims) -> (query: PostQuery)
        ensures
            query == PostQuery::ByOwner(claim.id),
    {
        PostQuery::ByOwner(claim.id)
    }
}

impl Post {
    /// Shows the post beside its owner's summary, if one is given.
    pub fn show(&self, user: Option<UserModel>) -> (model: PostModel)
        ensures
            model@ == self@.shown(
                match user {
                    Some(u) => Some(u@),
                    None => None,
                },
            ),
    {
        PostModel {
            id: self.id,
            title: self.title.clone(),
            text: self.text.clone(),
            uuid: self.uuid,
            image: self.image.clone(),
            user_id: self.user_id,
            created_at: self.created_at,
            user,
        }
    }
}

/// Shows what the datastore found for a listing: every post, in the order
/// found, without its owner. A failure of the datastore is a persistence error
/// that carries the datastore's message.
fn list(found: Result<Vec<Post>, String>) -> (result: Result<Vec<PostModel>, ErrorKind>)
    ensures
        match found {
            Ok(posts) => result matches Ok(models) && contents(models@) == listing(posts@),
            Err(detail) => result matches Err(e) && e@ == ErrorKindView::PersistenceError(detail@),
        },
{
    match found {
        Err(detail) => Err(ErrorKind::PersistenceError(detail)),
        Ok(posts) => {
            let mut models: Vec<PostModel> = Vec::new();
            let mut i: usize = 0;
            while i < posts.len()
                invariant
                    i <= posts.len(),
                    models@.len() == i,
                    forall|j: int| 0 <= j < i ==> (#[trigger] models@[j])@ == posts@[j]@.shown(None),
                decreases posts.len() - i,
            {
                models.push(posts[i].show(None));
                i += 1;
            }
            assert(contents(models@) =~= listing(posts@));
            Ok(models)
        },
    }
}

/// Handles the listing of the caller's own posts, given what the datastore
/// found for [`PostQuery::own`].
pub fn my_posts(found: Result<Vec<Post>, String>) -> (result: Result<Vec<PostModel>, ErrorKind>)
    ensures
        match found {
            Ok(posts) => result matches Ok(models) && contents(models@) == listing(posts@),
            Err(detail) => result matches Err(e) && e@ == ErrorKindView::PersistenceError(detail@),
        },
{
    list(found)
}

/// Handles the listing of all posts, given what the datastore found for
/// [`PostQuery::All`].
pub fn all_posts(found: Result<Vec<Post>, String>) -> (result: Result<Vec<PostModel>, ErrorKind>)
    ensures
        match found {
            Ok(posts) => result matches Ok(models) && contents(models@) == listing(posts@),
            Err(detail) => result matches Err(e) && e@ == ErrorKindView::PersistenceError(detail@),
        },
{
    list(found)
}

/// Handles the request for one post, given what the datastore found for its
/// identifier: the post beside its owner's summary, or nothing.
///
/// Where nothing was found the answer is that there is no such post.
pub fn single_post(found: Result<Option<(Post, Option<UserModel>)>, String>) -> (result: Result<
    PostModel,
    ErrorKind,
>)
    ensures
        match found {
            Ok(Some((post, user))) => result matches Ok(model) && model@ == post@.shown(
                match user {
                    Some(u) => Some(u@),
                    None => None,
                },
            ),
            Ok(None) => result matches Err(e) && e@ == ErrorKindView::NotFound,
            Err(detail) => result matches Err(e) && e@ == ErrorKindView::PersistenceError(detail@),
        },
{
    match found {
        Err(detail) => Err(ErrorKind::PersistenceError(detail)),
        Ok(None) => Err(ErrorKind::NotFound),
        Ok(Some((post, user))) => Ok(post.show(user)),
    }
}

} // verus!

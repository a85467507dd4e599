//! What the engine asks of its surroundings, what it is answered, and what an operation
//! ends in.
//!
//! The engine never touches the cache, the relational store or the identity service. It
//! hands out a [`Request`], and whoever embeds it performs the request and hands back the
//! [`Reply`].
use crate::auth::Permission;
use crate::model::{
    ip_log_view, DatabaseError, IPLog, Post, PostContext, PostContextView, PostView, Text,
};
use vstd::prelude::*;

verus! {

/// What an edit writes over a stored post.
#[derive(Debug, PartialEq, Eq)]
pub struct PostChange {
    /// The new content.
    pub content: String,
    /// The new password digest.
    pub password: String,
    /// The new slug.
    pub slug: String,
    /// The time of the edit.
    pub date_edited: u128,
    /// The new origin log.
    pub ips: Vec<IPLog>,
}

/// A [`PostChange`] as contracts see it.
#[verifier::ext_equal]
pub struct PostChangeView {
    pub content: Text,
    pub password: Text,
    pub slug: Text,
    pub date_edited: u128,
    pub ips: Seq<(u128, Text)>,
}

impl View for PostChange {
    type V = PostChangeView;

    open spec fn view(&self) -> PostChangeView {
        PostChangeView {
            content: self.content@,
            password: self.password@,
            slug: self.slug@,
            date_edited: self.date_edited,
            ips: ip_log_view(self.ips@),
        }
    }
}

impl PostChangeView {
    /// The post that the change makes of `post`: identifier, date of publication and
    /// metadata stay.
    pub open spec fn apply(self, post: PostView) -> PostView {
        PostView {
            id: post.id,
            slug: self.slug,
            content: self.content,
            password: self.password,
            date_published: post.date_published,
            date_edited: self.date_edited,
            context: post.context,
            ips: self.ips,
        }
    }
}

/// What the engine asks of its surroundings.
///
/// A statement comes with its text and with the values of its parameters, in the order of
/// the marks in the text.
#[derive(Debug, PartialEq, Eq)]
pub enum Request {
    /// Read the post that is cached under `key`. Answered by [`Reply::Post`].
    CachedPost { key: String },
    /// Cache `post` under `key`. The answer is not looked at.
    CachePost { key: String, post: Post },
    /// Read the view counter that is cached under `key`. Answered by [`Reply::Count`].
    CachedCount { key: String },
    /// Cache `count` as the view counter under `key`. The answer is not looked at.
    CacheCount { key: String, count: usize },
    /// Remove what is cached under `key`. The answer is not looked at.
    Forget { key: String },
    /// Add one to the counter that is cached under `key`. Answered by [`Reply::Done`].
    Increment { key: String },
    /// Read the row of the post `slug`. Answered by [`Reply::Row`].
    FetchPost { query: String, slug: String },
    /// Store `post`. Answered by [`Reply::Done`], or by [`Reply::Invalid`].
    InsertPost { query: String, post: Post },
    /// Write `change` over the post `slug`. Answered by [`Reply::Done`], or by
    /// [`Reply::Invalid`].
    UpdatePost { query: String, change: PostChange, slug: String },
    /// Write `context` over the metadata of the post `slug`. Answered by [`Reply::Done`],
    /// or by [`Reply::Invalid`].
    UpdateContext { query: String, context: PostContext, slug: String },
    /// Remove the post `slug`. Answered by [`Reply::Done`].
    DeletePost { query: String, slug: String },
    /// Count the rows of the view log of `slug`. Answered by [`Reply::Total`].
    CountViews { query: String, slug: String },
    /// Look for the entry of viewer `id` in the view log of `slug`. Answered by
    /// [`Reply::Done`], which says whether there is one.
    FetchView { query: String, slug: String, id: String },
    /// Remove the view log of `slug`. Answered by [`Reply::Done`].
    DeleteViews { query: String, slug: String },
    /// Create a table. The answer is not looked at.
    CreateTable { statement: String },
    /// Read the permissions of a group. Answered by [`Reply::Permissions`].
    Permissions { group: i32 },
    /// Record in the audit trail that `actor` did what `message` says. Answered by
    /// [`Reply::Done`].
    Audit { actor: String, message: String },
}

/// A [`Request`] as contracts see it.
#[verifier::ext_equal]
pub enum RequestView {
    CachedPost { key: Text },
    CachePost { key: Text, post: PostView },
    CachedCount { key: Text },
    CacheCount { key: Text, count: usize },
    Forget { key: Text },
    Increment { key: Text },
    FetchPost { query: Text, slug: Text },
    InsertPost { query: Text, post: PostView },
    UpdatePost { query: Text, change: PostChangeView, slug: Text },
    UpdateContext { query: Text, context: PostContextView, slug: Text },
    DeletePost { query: Text, slug: Text },
    CountViews { query: Text, slug: Text },
    FetchView { query: Text, slug: Text, id: Text },
    DeleteViews { query: Text, slug: Text },
    CreateTable { statement: Text },
    Permissions { group: i32 },
    Audit { actor: Text, message: Text },
}

impl View for Request {
    type V = RequestView;

    open spec fn view(&self) -> RequestView {
        match self {
            Request::CachedPost { key } => RequestView::CachedPost { key: key@ },
            Request::CachePost { key, post } => RequestView::CachePost { key: key@, post: post@ },
            Request::CachedCount { key } => RequestView::CachedCount { key: key@ },
            Request::CacheCount { key, count } => RequestView::CacheCount {
                key: key@,
                count: *count,
            },
            Request::Forget { key } => RequestView::Forget { key: key@ },
            Request::Increment { key } => RequestView::Increment { key: key@ },
            Request::FetchPost { query, slug } => RequestView::FetchPost {
                query: query@,
                slug: slug@,
            },
            Request::InsertPost { query, post } => RequestView::InsertPost {
                query: query@,
                post: post@,
            },
            Request::UpdatePost { query, change, slug } => RequestView::UpdatePost {
                query: query@,
                change: change@,
                slug: slug@,
            },
            Request::UpdateContext { query, context, slug } => RequestView::UpdateContext {
                query: query@,
                context: context@,
                slug: slug@,
            },
            Request::DeletePost { query, slug } => RequestView::DeletePost {
                query: query@,
                slug: slug@,
            },
            Request::CountViews { query, slug } => RequestView::CountViews {
                query: query@,
                slug: slug@,
            },
            Request::FetchView { query, slug, id } => RequestView::FetchView {
                query: query@,
                slug: slug@,
                id: id@,
            },
            Request::DeleteViews { query, slug } => RequestView::DeleteViews {
                query: query@,
                slug: slug@,
            },
            Request::CreateTable { statement } => RequestView::CreateTable {
                statement: statement@,
            },
            Request::Permissions { group } => RequestView::Permissions { group: *group },
            Request::Audit { actor, message } => RequestView::Audit {
                actor: actor@,
                message: message@,
            },
        }
    }
}

/// The row of a post as the relational store holds it. The two columns that hold
/// structured text are `None` where that text is malformed.
#[derive(Debug, PartialEq, Eq)]
pub struct Row {
    pub id: String,
    pub slug: String,
    pub password: String,
    pub content: String,
    pub date_published: u128,
    pub date_edited: u128,
    pub context: Option<PostContext>,
    pub ips: Option<Vec<IPLog>>,
}

/// A [`Row`] as contracts see it.
#[verifier::ext_equal]
pub struct RowView {
    pub id: Text,
    pub slug: Text,
    pub password: Text,
    pub content: Text,
    pub date_published: u128,
    pub date_edited: u128,
    pub context: Option<PostContextView>,
    pub ips: Option<Seq<(u128, Text)>>,
}

impl View for Row {
    type V = RowView;

    open spec fn view(&self) -> RowView {
        RowView {
            id: self.id@,
            slug: self.slug@,
            password: self.password@,
            content: self.content@,
            date_published: self.date_published,
            date_edited: self.date_edited,
            context: match self.context {
                Some(context) => Some(context@),
                None => None,
            },
            ips: match self.ips {
                Some(ips) => Some(ip_log_view(ips@)),
                None => None,
            },
        }
    }
}

impl RowView {
    /// The post of a row; `None` where one of its structured columns is malformed.
    pub open spec fn post(self) -> Option<PostView> {
        match (self.context, self.ips) {
            (Some(context), Some(ips)) => Some(
                PostView {
                    id: self.id,
                    slug: self.slug,
                    content: self.content,
                    password: self.password,
                    date_published: self.date_published,
                    date_edited: self.date_edited,
                    context,
                    ips,
                },
            ),
            _ => None,
        }
    }

    /// The row of a post.
    pub open spec fn of(post: PostView) -> RowView {
        RowView {
            id: post.id,
            slug: post.slug,
            password: post.password,
            content: post.content,
            date_published: post.date_published,
            date_edited: post.date_edited,
            context: Some(post.context),
            ips: Some(post.ips),
        }
    }
}

impl Row {
    /// The post of the row.
    ///
    /// Fails with [`DatabaseError::ValueError`] exactly where one of its structured columns
    /// is malformed.
    pub fn into_post(self) -> (r: Result<Post, DatabaseError>)
        ensures
            match r {
                Ok(post) => self@.post() == Some(post@),
                Err(e) => e == DatabaseError::ValueError && self@.post() is None,
            },
    {
        let context = match self.context {
            Some(context) => context,
            None => {
                return Err(DatabaseError::ValueError);
            },
        };
        let ips = match self.ips {
            Some(ips) => ips,
            None => {
                return Err(DatabaseError::ValueError);
            },
        };
        Ok(
            Post {
                id: self.id,
                slug: self.slug,
                content: self.content,
                password: self.password,
                date_published: self.date_published,
                date_edited: self.date_edited,
                context,
                ips,
            },
        )
    }
}

/// What the engine is answered.
#[derive(Debug, PartialEq, Eq)]
pub enum Reply {
    /// The cached post, or `None` where the cache holds none under the key.
    Post(Option<Post>),
    /// The cached view counter, or `None` where the cache holds none under the key.
    Count(Option<i32>),
    /// The row read, or `None` where the store gave none.
    Row(Option<Row>),
    /// Whether the request succeeded; for a lookup, whether something was found.
    Done(bool),
    /// A value of the request could not be written as text.
    Invalid,
    /// The number of rows, or `None` where the store could not be read.
    Total(Option<usize>),
    /// The permissions of the group, or `None` where the group could not be read.
    Permissions(Option<Vec<Permission>>),
}

/// A [`Reply`] as contracts see it.
#[verifier::ext_equal]
pub enum ReplyView {
    Post(Option<PostView>),
    Count(Option<i32>),
    Row(Option<RowView>),
    Done(bool),
    Invalid,
    Total(Option<usize>),
    Permissions(Option<Seq<Permission>>),
}

impl View for Reply {
    type V = ReplyView;

    open spec fn view(&self) -> ReplyView {
        match self {
            Reply::Post(Some(post)) => ReplyView::Post(Some(post@)),
            Reply::Post(None) => ReplyView::Post(None),
            Reply::Count(count) => ReplyView::Count(*count),
            Reply::Row(Some(row)) => ReplyView::Row(Some(row@)),
            Reply::Row(None) => ReplyView::Row(None),
            Reply::Done(ok) => ReplyView::Done(*ok),
            Reply::Invalid => ReplyView::Invalid,
            Reply::Total(total) => ReplyView::Total(*total),
            Reply::Permissions(Some(permissions)) => ReplyView::Permissions(Some(permissions@)),
            Reply::Permissions(None) => ReplyView::Permissions(None),
        }
    }
}

/// What an operation ends in.
#[derive(Debug, PartialEq, Eq)]
pub enum Outcome {
    /// The post that was asked for.
    Post(Post),
    /// The post that was created, with its edit password as it was supplied or generated.
    /// The password is handed out here and never again.
    Created(String, Post),
    /// The change was made.
    Done,
    /// The number of views.
    Views(i32),
    /// Whether the viewer has an entry in the view log.
    Viewed(bool),
    /// The operation failed.
    Failed(DatabaseError),
}

/// An [`Outcome`] as contracts see it.
#[verifier::ext_equal]
pub enum OutcomeView {
    Post(PostView),
    Created(Text, PostView),
    Done,
    Views(i32),
    Viewed(bool),
    Failed(DatabaseError),
}

impl View for Outcome {
    type V = OutcomeView;

    open spec fn view(&self) -> OutcomeView {
        match self {
            Outcome::Post(post) => OutcomeView::Post(post@),
            Outcome::Created(password, post) => OutcomeView::Created(password@, post@),
            Outcome::Done => OutcomeView::Done,
            Outcome::Views(count) => OutcomeView::Views(*count),
            Outcome::Viewed(seen) => OutcomeView::Viewed(*seen),
            Outcome::Failed(e) => OutcomeView::Failed(*e),
        }
    }
}

impl OutcomeView {
    /// What an operation that reads a post hands to its caller: the post, or the error. An
    /// outcome of another kind counts as [`DatabaseError::Other`].
    pub open spec fn post(self) -> Result<PostView, DatabaseError> {
        match self {
            OutcomeView::Post(post) => Ok(post),
            OutcomeView::Failed(e) => Err(e),
            _ => Err(DatabaseError::Other),
        }
    }

    /// What an operation that creates a post hands to its caller: the edit password and the
    /// post, or the error. An outcome of another kind counts as [`DatabaseError::Other`].
    pub open spec fn created(self) -> Result<(Text, PostView), DatabaseError> {
        match self {
            OutcomeView::Created(password, post) => Ok((password, post)),
            OutcomeView::Failed(e) => Err(e),
            _ => Err(DatabaseError::Other),
        }
    }

    /// What an operation that changes something hands to its caller: nothing, or the error.
    /// An outcome of another kind counts as [`DatabaseError::Other`].
    pub open spec fn done(self) -> Result<(), DatabaseError> {
        match self {
            OutcomeView::Done => Ok(()),
            OutcomeView::Failed(e) => Err(e),
            _ => Err(DatabaseError::Other),
        }
    }

    /// What a count of views hands to its caller: the number, or zero where there is none.
    pub open spec fn views(self) -> i32 {
        match self {
            OutcomeView::Views(count) => count,
            _ => 0,
        }
    }

    /// What a question after a viewer hands to its caller: whether the viewer has viewed
    /// the post, which is not the case where that is not known.
    pub open spec fn viewed(self) -> bool {
        match self {
            OutcomeView::Viewed(seen) => seen,
            _ => false,
        }
    }
}

/// A post or an error as contracts see it.
pub open spec fn post_result_view(r: Result<Post, DatabaseError>) -> Result<
    PostView,
    DatabaseError,
> {
    match r {
        Ok(post) => Ok(post@),
        Err(e) => Err(e),
    }
}

/// A created post with its password, or an error, as contracts see it.
pub open spec fn created_result_view(r: Result<(String, Post), DatabaseError>) -> Result<
    (Text, PostView),
    DatabaseError,
> {
    match r {
        Ok((password, post)) => Ok((password@, post@)),
        Err(e) => Err(e),
    }
}

impl Outcome {
    /// The result of an operation that reads a post.
    pub fn into_post(self) -> (r: Result<Post, DatabaseError>)
        ensures
            post_result_view(r) == self@.post(),
    {
        match self {
            Outcome::Post(post) => Ok(post),
            Outcome::Failed(e) => Err(e),
            _ => Err(DatabaseError::Other),
        }
    }

    /// The result of an operation that creates a post.
    pub fn into_created(self) -> (r: Result<(String, Post), DatabaseError>)
        ensures
            created_result_view(r) == self@.created(),
    {
        match self {
            Outcome::Created(password, post) => Ok((password, post)),
            Outcome::Failed(e) => Err(e),
            _ => Err(DatabaseError::Other),
        }
    }

    /// The result of an operation that changes something.
    pub fn into_done(self) -> (r: Result<(), DatabaseError>)
        ensures
            r == self@.done(),
    {
        match self {
            Outcome::Done => Ok(()),
            Outcome::Failed(e) => Err(e),
            _ => Err(DatabaseError::Other),
        }
    }

    /// The result of a count of views.
    pub fn into_views(self) -> (r: i32)
        ensures
            r == self@.views(),
    {
        match self {
            Outcome::Views(count) => count,
            _ => 0,
        }
    }

    /// The result of a question after a viewer.
    pub fn into_viewed(self) -> (r: bool)
        ensures
            r == self@.viewed(),
    {
        match self {
            Outcome::Viewed(seen) => seen,
            _ => false,
        }
    }
}

} // verus!

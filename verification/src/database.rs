//! The post engine: every operation on posts, as a state machine over requests and replies.
//!
//! An operation starts with a call of its own ([`Database::get_post`],
//! [`Database::create_post`], ...), which gives the first [`Step`]. A step either ends the
//! operation with an [`Outcome`], or asks for something and names the [`Task`] to resume
//! with once the [`Reply`] is there ([`Database::resume`]). What a step is, given a task and
//! a reply, is the spec function [`Database::next`]; every operation normalizes the slug it
//! is given, reads through the cache, passes changes through the authorization gate,
//! checks what it is to write before it writes or records anything, and removes from the
//! cache what a change has made stale. No post is created under, or moved to, a slug that
//! resolves to a live post.
use crate::auth::{access, authorize, Access, Identity, IdentityView};
use crate::config::Config;
use crate::model::{
    ip_log_view, ClonePost, CreatePost, DatabaseError, IPLog, Post, PostContext,
    PostContextView, PostView, Text, ViewMode, IP_LOG_LIMIT,
};
use crate::protocol::{
    Outcome, OutcomeView, PostChange, PostChangeView, Reply, ReplyView, Request, RequestView,
};
use crate::query::{
    cache_key, cache_key_text, create_posts, create_posts_text, create_views,
    create_views_text, delete_post, delete_post_text, delete_views, delete_views_text,
    insert_post, insert_post_text, select_post, select_post_text, select_view,
    select_view_text, select_views, select_views_text, update_context, update_context_text,
    update_post, update_post_text, Placeholders,
};
use crate::slug::{is_valid_slug, normalize, normalized, valid_slug};
use crate::utility::{digest_of, hash, unix_epoch_timestamp, Fresh, FreshView};
use vstd::prelude::*;

verus! {

/// The longest content that a post may be created with, in characters.
pub const CONTENT_MAX: usize = 200000;

/// Whether a post may be created with a content: 1 to 200000 characters.
pub open spec fn valid_content(content: Text) -> bool {
    1 <= content.len() <= CONTENT_MAX
}

/// Whether a post may be created with `content`.
pub fn is_valid_content(content: &str) -> (r: bool)
    ensures
        r == valid_content(content@),
{
    let n = content.unicode_len();
    1 <= n && n <= CONTENT_MAX
}

/// An origin log with one more entry, cut down to its ten most recent entries: the oldest
/// leave first.
pub open spec fn appended(log: Seq<(u128, Text)>, entry: (u128, Text)) -> Seq<(u128, Text)> {
    let all = log.push(entry);
    if all.len() > IP_LOG_LIMIT {
        all.subrange(all.len() - IP_LOG_LIMIT, all.len() as int)
    } else {
        all
    }
}

/// Adds `entry` to an origin log and cuts the log down to its ten most recent entries.
pub fn append_origin(ips: Vec<IPLog>, entry: IPLog) -> (r: Vec<IPLog>)
    ensures
        ip_log_view(r@) == appended(ip_log_view(ips@), (entry.0, entry.1@)),
        r@.len() <= IP_LOG_LIMIT,
{
    let mut all = ips;
    all.push(entry);
    assert(ip_log_view(all@) =~= ip_log_view(ips@).push((entry.0, entry.1@)));
    if all.len() > IP_LOG_LIMIT {
        let start = all.len() - IP_LOG_LIMIT;
        let kept = all.split_off(start);
        assert(ip_log_view(kept@) =~= appended(ip_log_view(ips@), (entry.0, entry.1@)));
        kept
    } else {
        all
    }
}

/// A post that is about to be created: what the caller supplied of it, where the request
/// came from, and what was drawn for it.
#[derive(Debug, PartialEq, Eq)]
pub struct Draft {
    /// The normalized slug; empty where the caller supplied none.
    pub slug: String,
    /// The edit password; empty where the caller supplied none.
    pub password: String,
    /// The origin address of the request.
    pub ip: String,
    /// What was drawn for the post.
    pub fresh: Fresh,
}

/// A [`Draft`] as contracts see it.
#[verifier::ext_equal]
pub struct DraftView {
    pub slug: Text,
    pub password: Text,
    pub ip: Text,
    pub fresh: FreshView,
}

impl View for Draft {
    type V = DraftView;

    open spec fn view(&self) -> DraftView {
        DraftView { slug: self.slug@, password: self.password@, ip: self.ip@, fresh: self.fresh@ }
    }
}

impl DraftView {
    /// The slug of the post: the supplied one, or the drawn one where none was supplied.
    pub open spec fn final_slug(self) -> Text {
        if self.slug.len() == 0 {
            self.fresh.slug
        } else {
            self.slug
        }
    }

    /// The edit password of the post: the supplied one, or the drawn one where none was
    /// supplied.
    pub open spec fn final_password(self) -> Text {
        if self.password.len() == 0 {
            self.fresh.password
        } else {
            self.password
        }
    }

    /// The post that a draft becomes, with its edit password as the caller gets it, where
    /// `digest` is the digest of that password.
    ///
    /// The post has the drawn identifier, one date for both its publication and its last
    /// edit, and an origin log of one entry. It fails with [`DatabaseError::ValueError`]
    /// exactly where the slug is not one that a post may be created under, or where the
    /// content is to be checked and is empty or too long.
    pub open spec fn post_with(
        self,
        content: Text,
        context: PostContextView,
        check_content: bool,
        digest: Text,
    ) -> Result<(Text, PostView), DatabaseError> {
        if !valid_slug(self.final_slug()) || (check_content && !valid_content(content)) {
            Err(DatabaseError::ValueError)
        } else {
            Ok(
                (
                    self.final_password(),
                    PostView {
                        id: self.fresh.id,
                        slug: self.final_slug(),
                        content,
                        password: digest,
                        date_published: self.fresh.now,
                        date_edited: self.fresh.now,
                        context,
                        ips: seq![(self.fresh.now, self.ip)],
                    },
                ),
            )
        }
    }

    /// The post that a draft becomes, with its edit password as the caller gets it. What
    /// the post keeps of the password is its digest.
    pub open spec fn post(
        self,
        content: Text,
        context: PostContextView,
        check_content: bool,
    ) -> Result<(Text, PostView), DatabaseError> {
        self.post_with(content, context, check_content, digest_of(self.final_password()))
    }
}

/// A created post and its password as contracts see them.
pub open spec fn built_view(built: Result<(String, Post), DatabaseError>) -> Result<
    (Text, PostView),
    DatabaseError,
> {
    match built {
        Ok((password, post)) => Ok((password@, post@)),
        Err(e) => Err(e),
    }
}

impl Draft {
    /// The edit password of the post: the supplied one, or the drawn one where none was
    /// supplied.
    pub fn password(&self) -> (r: &str)
        ensures
            r@ == self@.final_password(),
    {
        if self.password.as_str().is_empty() {
            self.fresh.password.as_str()
        } else {
            self.password.as_str()
        }
    }

    /// The post that the draft becomes, with its edit password as the caller gets it, where
    /// `digest` is the digest of that password.
    pub fn build(
        self,
        content: String,
        context: PostContext,
        check_content: bool,
        digest: String,
    ) -> (r: Result<(String, Post), DatabaseError>)
        ensures
            built_view(r) == self@.post_with(content@, context@, check_content, digest@),
    {
        let slug = if self.slug.as_str().is_empty() {
            self.fresh.slug
        } else {
            self.slug
        };
        let password = if self.password.as_str().is_empty() {
            self.fresh.password
        } else {
            self.password
        };
        if !is_valid_slug(slug.as_str()) {
            return Err(DatabaseError::ValueError);
        }
        if check_content && !is_valid_content(content.as_str()) {
            return Err(DatabaseError::ValueError);
        }
        let now = self.fresh.now;
        let mut ips: Vec<IPLog> = Vec::new();
        ips.push((now, self.ip));
        assert(ip_log_view(ips@) =~= seq![(now, self.ip@)]);
        let post = Post {
            id: self.fresh.id,
            slug,
            content,
            password: digest,
            date_published: now,
            date_edited: now,
            context,
            ips,
        };
        Ok((password, post))
    }
}

/// What an edit writes over the post `existing`: the new content, the new password digest
/// or the old one where there is none, the new slug, the time of the edit, and the origin
/// log with the entry of the edit.
pub open spec fn edit_of(
    existing: PostView,
    content: Text,
    digest: Option<Text>,
    slug: Text,
    now: u128,
    ip: Text,
) -> PostChangeView {
    PostChangeView {
        content,
        password: match digest {
            Some(digest) => digest,
            None => existing.password,
        },
        slug,
        date_edited: now,
        ips: appended(existing.ips, (now, ip)),
    }
}

/// What an edit writes over the post `existing`.
pub fn edited(
    existing: Post,
    content: String,
    digest: Option<String>,
    slug: String,
    now: u128,
    ip: String,
) -> (r: PostChange)
    ensures
        r@ == edit_of(
            existing@,
            content@,
            match digest {
                Some(digest) => Some(digest@),
                None => None,
            },
            slug@,
            now,
            ip@,
        ),
        r.ips@.len() <= IP_LOG_LIMIT,
{
    let password = match digest {
        Some(digest) => digest,
        None => existing.password,
    };
    let ips = append_origin(existing.ips, (now, ip));
    PostChange { content, password, slug, date_edited: now, ips }
}

/// A change to a stored post as it is asked for: not yet allowed, and not yet checked.
#[derive(Debug, PartialEq, Eq)]
pub enum Change {
    /// Remove the post.
    Delete,
    /// Rewrite the post. An empty `slug` keeps the slug, an empty `password` keeps the
    /// password.
    Edit { ip: String, content: String, slug: String, password: String, now: u128 },
    /// Rewrite the metadata of the post.
    Context { context: PostContext },
}

/// A [`Change`] as contracts see it.
#[verifier::ext_equal]
pub enum ChangeView {
    Delete,
    Edit { ip: Text, content: Text, slug: Text, password: Text, now: u128 },
    Context { context: PostContextView },
}

impl View for Change {
    type V = ChangeView;

    open spec fn view(&self) -> ChangeView {
        match self {
            Change::Delete => ChangeView::Delete,
            Change::Edit { ip, content, slug, password, now } => ChangeView::Edit {
                ip: ip@,
                content: content@,
                slug: slug@,
                password: password@,
                now: *now,
            },
            Change::Context { context } => ChangeView::Context { context: context@ },
        }
    }
}

impl ChangeView {
    /// What the audit trail says of a change that a delegated identity made to the post
    /// `slug`.
    pub open spec fn audit_message(self, slug: Text) -> Text {
        match self {
            ChangeView::Delete => "Deleted a post: "@ + slug,
            ChangeView::Edit { .. } => "Edited a post: "@ + slug,
            ChangeView::Context { .. } => "Edited a post's context: "@ + slug,
        }
    }
}

impl Change {
    /// What the audit trail says of the change, made to the post `slug`.
    pub fn audit_message(&self, slug: &str) -> (r: String)
        ensures
            r@ == self@.audit_message(slug@),
    {
        let mut message = match self {
            Change::Delete => String::from_str("Deleted a post: "),
            Change::Edit { .. } => String::from_str("Edited a post: "),
            Change::Context { .. } => String::from_str("Edited a post's context: "),
        };
        message.append(slug);
        message
    }
}

/// A change that has passed its checks: what is to be written.
#[derive(Debug, PartialEq, Eq)]
pub enum Ready {
    /// Remove the post.
    Delete,
    /// Write `change` over the post.
    Edit { change: PostChange },
    /// Write `context` over the metadata of the post.
    Context { context: PostContext },
}

/// A [`Ready`] as contracts see it.
#[verifier::ext_equal]
pub enum ReadyView {
    Delete,
    Edit { change: PostChangeView },
    Context { context: PostContextView },
}

impl View for Ready {
    type V = ReadyView;

    open spec fn view(&self) -> ReadyView {
        match self {
            Ready::Delete => ReadyView::Delete,
            Ready::Edit { change } => ReadyView::Edit { change: change@ },
            Ready::Context { context } => ReadyView::Context { context: context@ },
        }
    }
}

/// A checked change, or the error of the check, as contracts see it.
pub open spec fn ready_view(ready: Result<Ready, DatabaseError>) -> Result<ReadyView, DatabaseError> {
    match ready {
        Ok(ready) => Ok(ready@),
        Err(e) => Err(e),
    }
}

/// An entry for the audit trail, (actor, message), where there is one, as contracts see
/// it.
pub open spec fn audit_view(audit: Option<(String, String)>) -> Option<(Text, Text)> {
    match audit {
        Some((actor, message)) => Some((actor@, message@)),
        None => None,
    }
}

/// The slug that an edit of `existing` is to write, before it is normalized: the new slug,
/// or the post's own where the edit gives none.
pub open spec fn edit_slug(existing: PostView, new_slug: Text) -> Text {
    if new_slug.len() == 0 {
        existing.slug
    } else {
        new_slug
    }
}

/// What a change to the post `existing` is to write, once it is checked.
///
/// Nothing is checked of a deletion or of new metadata. An edit fails with
/// [`DatabaseError::ValueError`] where its content is empty or too long, where the slug
/// that it is to write cannot be normalized, and where it gives a new slug that is not one
/// that a post may be stored under. It keeps the password digest where it gives no new
/// password, and the origin log gets its entry.
pub open spec fn prepared(existing: PostView, change: ChangeView) -> Result<
    ReadyView,
    DatabaseError,
> {
    match change {
        ChangeView::Delete => Ok(ReadyView::Delete),
        ChangeView::Context { context } => Ok(ReadyView::Context { context }),
        ChangeView::Edit { ip, content, slug: new_slug, password, now } => {
            if !valid_content(content) {
                Err(DatabaseError::ValueError)
            } else {
                match normalized(edit_slug(existing, new_slug)) {
                    None => Err(DatabaseError::ValueError),
                    Some(key) => if new_slug.len() > 0 && !valid_slug(key) {
                        Err(DatabaseError::ValueError)
                    } else {
                        Ok(
                            ReadyView::Edit {
                                change: edit_of(
                                    existing,
                                    content,
                                    if password.len() == 0 {
                                        None
                                    } else {
                                        Some(digest_of(password))
                                    },
                                    key,
                                    now,
                                    ip,
                                ),
                            },
                        )
                    },
                }
            }
        },
    }
}

/// Checks a change to the post `existing`, and says what it is to write.
pub fn prepare(existing: Post, change: Change) -> (r: Result<Ready, DatabaseError>)
    ensures
        ready_view(r) == prepared(existing@, change@),
{
    match change {
        Change::Delete => Ok(Ready::Delete),
        Change::Context { context } => Ok(Ready::Context { context }),
        Change::Edit { ip, content, slug, password, now } => {
            if !is_valid_content(content.as_str()) {
                return Err(DatabaseError::ValueError);
            }
            let given = !slug.as_str().is_empty();
            let renamed = if given {
                normalize(slug.as_str())
            } else {
                normalize(existing.slug.as_str())
            };
            match renamed {
                Err(_) => Err(DatabaseError::ValueError),
                Ok(key) => {
                    if given && !is_valid_slug(key.as_str()) {
                        return Err(DatabaseError::ValueError);
                    }
                    let digest = if password.as_str().is_empty() {
                        None
                    } else {
                        Some(hash(password.as_str()))
                    };
                    Ok(Ready::Edit { change: edited(existing, content, digest, key, now, ip) })
                },
            }
        },
    }
}

/// What a lookup of a post was made for: what the operation does with what it finds.
#[derive(Debug, PartialEq, Eq)]
pub enum After {
    /// Hand the post out.
    Get,
    /// Create a post under the slug, if there is none yet.
    Create { content: String, draft: Draft },
    /// Create a post from the template `source` under the slug, if there is none yet.
    CloneTarget { source: String, draft: Draft },
    /// Create a post from the template that was looked up.
    CloneSource { draft: Draft },
    /// Change the post, if the authorization gate allows it.
    Change { password: String, user: Option<Identity>, change: Change },
    /// Move the post `slug` to the slug that was looked up, if no post has it yet.
    Rename { slug: String, audit: Option<(String, String)>, edit: PostChange },
}

/// An [`After`] as contracts see it.
#[verifier::ext_equal]
pub enum AfterView {
    Get,
    Create { content: Text, draft: DraftView },
    CloneTarget { source: Text, draft: DraftView },
    CloneSource { draft: DraftView },
    Change { password: Text, user: Option<IdentityView>, change: ChangeView },
    Rename { slug: Text, audit: Option<(Text, Text)>, edit: PostChangeView },
}

/// An identity, where there is one, as contracts see it.
pub open spec fn user_view(user: Option<Identity>) -> Option<IdentityView> {
    match user {
        Some(identity) => Some(identity@),
        None => None,
    }
}

impl View for After {
    type V = AfterView;

    open spec fn view(&self) -> AfterView {
        match self {
            After::Get => AfterView::Get,
            After::Create { content, draft } => AfterView::Create {
                content: content@,
                draft: draft@,
            },
            After::CloneTarget { source, draft } => AfterView::CloneTarget {
                source: source@,
                draft: draft@,
            },
            After::CloneSource { draft } => AfterView::CloneSource { draft: draft@ },
            After::Change { password, user, change } => AfterView::Change {
                password: password@,
                user: user_view(*user),
                change: change@,
            },
            After::Rename { slug, audit, edit } => AfterView::Rename {
                slug: slug@,
                audit: audit_view(*audit),
                edit: edit@,
            },
        }
    }
}

/// Where an operation stands while it waits for a reply.
#[derive(Debug, PartialEq, Eq)]
pub enum Task {
    /// The cache was asked for the post `slug`.
    Cached { slug: String, after: After },
    /// The store was asked for the post `slug`, which the cache does not hold.
    Fetched { slug: String, after: After },
    /// The cache was given the post that the store held.
    Stored { post: Post, slug: String, after: After },
    /// The store was given a new post.
    Inserting { password: String, post: Post },
    /// The identity service was asked for the permissions of the actor's group.
    Authorizing { existing: Post, slug: String, actor: String, change: Change },
    /// The audit trail was given the change.
    Auditing { slug: String, ready: Ready },
    /// The store was given a rewrite of the post `slug`.
    Updating { slug: String },
    /// The cache was told to forget a post that has changed.
    Finishing,
    /// The cache was told to forget the view counter of a post that is being deleted.
    DroppingCounter { slug: String },
    /// The store was told to remove the post `slug`.
    DeletingRow { slug: String },
    /// The cache was told to forget the deleted post.
    DroppingPost { slug: String },
    /// The store was told to remove the view log of the deleted post.
    DeletingViews,
    /// The cache was asked for the view counter of `slug`.
    Counting { slug: String },
    /// The store was asked to count the view log of `slug`.
    Tallying { slug: String },
    /// The cache was given the count of the view log.
    Remembering { count: usize },
    /// The cache was told to add one to a view counter.
    Incrementing,
    /// The store was asked for the entry of a viewer.
    Viewing,
    /// The store was told to create the table of posts.
    CreatingPosts,
    /// The store was told to create the table of the view log.
    CreatingViews,
}

/// A [`Task`] as contracts see it.
#[verifier::ext_equal]
pub enum TaskView {
    Cached { slug: Text, after: AfterView },
    Fetched { slug: Text, after: AfterView },
    Stored { post: PostView, slug: Text, after: AfterView },
    Inserting { password: Text, post: PostView },
    Authorizing { existing: PostView, slug: Text, actor: Text, change: ChangeView },
    Auditing { slug: Text, ready: ReadyView },
    Updating { slug: Text },
    Finishing,
    DroppingCounter { slug: Text },
    DeletingRow { slug: Text },
    DroppingPost { slug: Text },
    DeletingViews,
    Counting { slug: Text },
    Tallying { slug: Text },
    Remembering { count: usize },
    Incrementing,
    Viewing,
    CreatingPosts,
    CreatingViews,
}

impl View for Task {
    type V = TaskView;

    open spec fn view(&self) -> TaskView {
        match self {
            Task::Cached { slug, after } => TaskView::Cached { slug: slug@, after: after@ },
            Task::Fetched { slug, after } => TaskView::Fetched { slug: slug@, after: after@ },
            Task::Stored { post, slug, after } => TaskView::Stored {
                post: post@,
                slug: slug@,
                after: after@,
            },
            Task::Inserting { password, post } => TaskView::Inserting {
                password: password@,
                post: post@,
            },
            Task::Authorizing { existing, slug, actor, change } => TaskView::Authorizing {
                existing: existing@,
                slug: slug@,
                actor: actor@,
                change: change@,
            },
            Task::Auditing { slug, ready } => TaskView::Auditing { slug: slug@, ready: ready@ },
            Task::Updating { slug } => TaskView::Updating { slug: slug@ },
            Task::Finishing => TaskView::Finishing,
            Task::DroppingCounter { slug } => TaskView::DroppingCounter { slug: slug@ },
            Task::DeletingRow { slug } => TaskView::DeletingRow { slug: slug@ },
            Task::DroppingPost { slug } => TaskView::DroppingPost { slug: slug@ },
            Task::DeletingViews => TaskView::DeletingViews,
            Task::Counting { slug } => TaskView::Counting { slug: slug@ },
            Task::Tallying { slug } => TaskView::Tallying { slug: slug@ },
            Task::Remembering { count } => TaskView::Remembering { count: *count },
            Task::Incrementing => TaskView::Incrementing,
            Task::Viewing => TaskView::Viewing,
            Task::CreatingPosts => TaskView::CreatingPosts,
            Task::CreatingViews => TaskView::CreatingViews,
        }
    }
}

/// One step of an operation.
#[derive(Debug, PartialEq, Eq)]
pub enum Step {
    /// The operation asks for something. Perform the request, and resume the task with the
    /// reply.
    Ask(Request, Task),
    /// The operation has ended.
    Done(Outcome),
}

/// A [`Step`] as contracts see it.
#[verifier::ext_equal]
pub enum StepView {
    Ask(RequestView, TaskView),
    Done(OutcomeView),
}

impl View for Step {
    type V = StepView;

    open spec fn view(&self) -> StepView {
        match self {
            Step::Ask(request, task) => StepView::Ask(request@, task@),
            Step::Done(outcome) => StepView::Done(outcome@),
        }
    }
}

/// The step that ends an operation in failure.
pub open spec fn failed(e: DatabaseError) -> StepView {
    StepView::Done(OutcomeView::Failed(e))
}

/// A found post, or the error of the lookup, as contracts see it.
pub open spec fn found_view(found: Result<Post, DatabaseError>) -> Result<PostView, DatabaseError> {
    match found {
        Ok(post) => Ok(post@),
        Err(e) => Err(e),
    }
}

/// The post engine. It holds the configuration and knows how the relational store marks
/// the parameters of a statement; it holds no connection.
#[derive(Debug, PartialEq, Eq)]
pub struct Database {
    /// The configuration.
    pub config: Config,
    /// How the store marks the parameters of a statement.
    pub placeholders: Placeholders,
}

impl Database {
    /// The key under which the post `slug` is cached.
    pub open spec fn post_key(&self, slug: Text) -> Text {
        cache_key_text(self.config.table_posts.prefix@, slug)
    }

    /// The key under which the view counter of `slug` is cached.
    pub open spec fn view_key(&self, slug: Text) -> Text {
        cache_key_text(self.config.table_views.prefix@, slug)
    }

    /// Whether views are counted by a durable view log.
    pub open spec fn durable(&self) -> bool {
        self.config.view_mode == ViewMode::AuthenticatedOnce
    }

    /// The first step of a lookup of the post `slug`: the cache is asked.
    pub open spec fn lookup_step(&self, slug: Text, after: AfterView) -> StepView {
        StepView::Ask(
            RequestView::CachedPost { key: self.post_key(slug) },
            TaskView::Cached { slug, after },
        )
    }

    /// The step that stores a created post, or ends in the error that kept it from being
    /// built.
    pub open spec fn insert_step(&self, built: Result<(Text, PostView), DatabaseError>) -> StepView {
        match built {
            Ok((password, post)) => StepView::Ask(
                RequestView::InsertPost {
                    query: insert_post_text(&self.config.table_posts, self.placeholders),
                    post,
                },
                TaskView::Inserting { password, post },
            ),
            Err(e) => failed(e),
        }
    }

    /// The first step of writing a checked change to the post `slug`.
    ///
    /// A deletion starts with the view counter, which the cache is to forget; an edit and
    /// new metadata go to the store.
    pub open spec fn write_step(&self, slug: Text, ready: ReadyView) -> StepView {
        match ready {
            ReadyView::Delete => StepView::Ask(
                RequestView::Forget { key: self.view_key(slug) },
                TaskView::DroppingCounter { slug },
            ),
            ReadyView::Edit { change } => StepView::Ask(
                RequestView::UpdatePost {
                    query: update_post_text(&self.config.table_posts, self.placeholders),
                    change,
                    slug,
                },
                TaskView::Updating { slug },
            ),
            ReadyView::Context { context } => StepView::Ask(
                RequestView::UpdateContext {
                    query: update_context_text(&self.config.table_posts, self.placeholders),
                    context,
                    slug,
                },
                TaskView::Updating { slug },
            ),
        }
    }

    /// The step that attributes a checked change and writes it: where there is an entry
    /// for the audit trail, it is recorded first, and nothing is written unless it was.
    pub open spec fn attribute_step(
        &self,
        slug: Text,
        audit: Option<(Text, Text)>,
        ready: ReadyView,
    ) -> StepView {
        match audit {
            Some((actor, message)) => StepView::Ask(
                RequestView::Audit { actor, message },
                TaskView::Auditing { slug, ready },
            ),
            None => self.write_step(slug, ready),
        }
    }

    /// The first step of a change that the authorization gate has allowed, made by `actor`
    /// where it is made under a delegated identity.
    ///
    /// The change is checked, and fails with the error of the check before anything is
    /// asked for. An edit that is to write another slug than the one under which the post
    /// is stored looks that slug up first, to see whether it is taken. Every other change
    /// is attributed and written.
    pub open spec fn allowed_step(
        &self,
        existing: PostView,
        slug: Text,
        actor: Option<Text>,
        change: ChangeView,
    ) -> StepView {
        let audit = match actor {
            Some(actor) => Some((actor, change.audit_message(existing.slug))),
            None => None,
        };
        match prepared(existing, change) {
            Err(e) => failed(e),
            Ok(ReadyView::Edit { change: written }) => if written.slug == slug {
                self.attribute_step(slug, audit, ReadyView::Edit { change: written })
            } else {
                self.lookup_step(
                    written.slug,
                    AfterView::Rename { slug, audit, edit: written },
                )
            },
            Ok(ready) => self.attribute_step(slug, audit, ready),
        }
    }

    /// The step that follows a lookup: what the operation does with the post that was
    /// found under `slug`, or with the error of the lookup.
    ///
    /// A creation fails with [`DatabaseError::AlreadyExists`] where a post was found, and
    /// goes on where none was, whatever the error. A clone then looks its template up, and
    /// fails with the error of that lookup. A change fails with the error of the lookup;
    /// under a delegated identity it asks for the permissions of the identity's group,
    /// without one it is decided by the password alone. An edit that moves a post fails
    /// with [`DatabaseError::AlreadyExists`] where a post was found under the new slug, and
    /// goes on where none was.
    pub open spec fn found_step(
        &self,
        slug: Text,
        after: AfterView,
        found: Result<PostView, DatabaseError>,
    ) -> StepView {
        match after {
            AfterView::Get => match found {
                Ok(post) => StepView::Done(OutcomeView::Post(post)),
                Err(e) => failed(e),
            },
            AfterView::Create { content, draft } => match found {
                Ok(_) => failed(DatabaseError::AlreadyExists),
                Err(_) => self.insert_step(draft.post(content, PostContextView::empty(), true)),
            },
            AfterView::CloneTarget { source, draft } => match found {
                Ok(_) => failed(DatabaseError::AlreadyExists),
                Err(_) => match normalized(source) {
                    Some(key) => self.lookup_step(key, AfterView::CloneSource { draft }),
                    None => failed(DatabaseError::ValueError),
                },
            },
            AfterView::CloneSource { draft } => match found {
                Ok(source) => self.insert_step(
                    draft.post(source.content, PostContextView::derived(source.slug), false),
                ),
                Err(e) => failed(e),
            },
            AfterView::Change { password, user, change } => match found {
                Ok(existing) => match user {
                    Some(identity) => StepView::Ask(
                        RequestView::Permissions { group: identity.group },
                        TaskView::Authorizing { existing, slug, actor: identity.id, change },
                    ),
                    None => match access(existing.password, password, None) {
                        Access::Granted { .. } => self.allowed_step(existing, slug, None, change),
                        Access::Denied(e) => failed(e),
                    },
                },
                Err(e) => failed(e),
            },
            AfterView::Rename { slug: stored, audit, edit } => match found {
                Ok(_) => failed(DatabaseError::AlreadyExists),
                Err(_) => self.attribute_step(stored, audit, ReadyView::Edit { change: edit }),
            },
        }
    }

    /// The step that follows a task once its reply is there.
    ///
    /// Reading is cache-aside: a post that the cache holds is taken from it; any other
    /// answer of the cache counts as a miss and sends the lookup to the store, and a post
    /// found there is put in the cache before it is used. A missing row is
    /// [`DatabaseError::NotFound`], a malformed one [`DatabaseError::ValueError`]. Writing
    /// never updates the cache: a change that the store has taken is followed by the
    /// removal of the stale entry. A store, cache counter or audit request that does not
    /// succeed ends the operation with [`DatabaseError::Other`], a value that cannot be
    /// written as text with [`DatabaseError::ValueError`].
    pub open spec fn next(&self, task: TaskView, reply: ReplyView) -> StepView {
        match task {
            TaskView::Cached { slug, after } => match reply {
                ReplyView::Post(Some(post)) => self.found_step(slug, after, Ok(post)),
                _ => StepView::Ask(
                    RequestView::FetchPost {
                        query: select_post_text(&self.config.table_posts, self.placeholders),
                        slug,
                    },
                    TaskView::Fetched { slug, after },
                ),
            },
            TaskView::Fetched { slug, after } => match reply {
                ReplyView::Row(Some(row)) => match row.post() {
                    Some(post) => StepView::Ask(
                        RequestView::CachePost { key: self.post_key(slug), post },
                        TaskView::Stored { post, slug, after },
                    ),
                    None => self.found_step(slug, after, Err(DatabaseError::ValueError)),
                },
                _ => self.found_step(slug, after, Err(DatabaseError::NotFound)),
            },
            TaskView::Stored { post, slug, after } => self.found_step(slug, after, Ok(post)),
            TaskView::Inserting { password, post } => match reply {
                ReplyView::Done(true) => StepView::Done(OutcomeView::Created(password, post)),
                ReplyView::Invalid => failed(DatabaseError::ValueError),
                _ => failed(DatabaseError::Other),
            },
            TaskView::Authorizing { existing, slug, actor, change } => match reply {
                ReplyView::Permissions(Some(permissions)) => match access(
                    existing.password,
                    Seq::empty(),
                    Some(permissions),
                ) {
                    Access::Granted { .. } => self.allowed_step(
                        existing,
                        slug,
                        Some(actor),
                        change,
                    ),
                    Access::Denied(e) => failed(e),
                },
                _ => failed(DatabaseError::Other),
            },
            TaskView::Auditing { slug, ready } => match reply {
                ReplyView::Done(true) => self.write_step(slug, ready),
                _ => failed(DatabaseError::Other),
            },
            TaskView::Updating { slug } => match reply {
                ReplyView::Done(true) => StepView::Ask(
                    RequestView::Forget { key: self.post_key(slug) },
                    TaskView::Finishing,
                ),
                ReplyView::Invalid => failed(DatabaseError::ValueError),
                _ => failed(DatabaseError::Other),
            },
            TaskView::Finishing => StepView::Done(OutcomeView::Done),
            TaskView::DroppingCounter { slug } => StepView::Ask(
                RequestView::DeletePost {
                    query: delete_post_text(&self.config.table_posts, self.placeholders),
                    slug,
                },
                TaskView::DeletingRow { slug },
            ),
            TaskView::DeletingRow { slug } => match reply {
                ReplyView::Done(true) => StepView::Ask(
                    RequestView::Forget { key: self.post_key(slug) },
                    TaskView::DroppingPost { slug },
                ),
                _ => failed(DatabaseError::Other),
            },
            TaskView::DroppingPost { slug } => if self.durable() {
                StepView::Ask(
                    RequestView::DeleteViews {
                        query: delete_views_text(&self.config.table_views, self.placeholders),
                        slug,
                    },
                    TaskView::DeletingViews,
                )
            } else {
                StepView::Done(OutcomeView::Done)
            },
            TaskView::DeletingViews => match reply {
                ReplyView::Done(true) => StepView::Done(OutcomeView::Done),
                _ => failed(DatabaseError::Other),
            },
            TaskView::Counting { slug } => match reply {
                ReplyView::Count(Some(count)) => StepView::Done(OutcomeView::Views(count)),
                _ => if self.durable() {
                    StepView::Ask(
                        RequestView::CountViews {
                            query: select_views_text(&self.config.table_views, self.placeholders),
                            slug,
                        },
                        TaskView::Tallying { slug },
                    )
                } else {
                    StepView::Done(OutcomeView::Views(0))
                },
            },
            TaskView::Tallying { slug } => match reply {
                ReplyView::Total(Some(count)) => StepView::Ask(
                    RequestView::CacheCount { key: self.view_key(slug), count },
                    TaskView::Remembering { count },
                ),
                _ => StepView::Done(OutcomeView::Views(0)),
            },
            TaskView::Remembering { count } => StepView::Done(OutcomeView::Views(count as i32)),
            TaskView::Incrementing => match reply {
                ReplyView::Done(true) => StepView::Done(OutcomeView::Done),
                _ => failed(DatabaseError::Other),
            },
            TaskView::Viewing => match reply {
                ReplyView::Done(seen) => StepView::Done(OutcomeView::Viewed(seen)),
                _ => StepView::Done(OutcomeView::Viewed(false)),
            },
            TaskView::CreatingPosts => if self.durable() {
                StepView::Ask(
                    RequestView::CreateTable {
                        statement: create_views_text(&self.config.table_views),
                    },
                    TaskView::CreatingViews,
                )
            } else {
                StepView::Done(OutcomeView::Done)
            },
            TaskView::CreatingViews => StepView::Done(OutcomeView::Done),
        }
    }
}

impl Database {
    /// The first step of reading the post `slug`.
    pub open spec fn get_post_step(&self, slug: Text) -> StepView {
        match normalized(slug) {
            Some(key) => self.lookup_step(key, AfterView::Get),
            None => failed(DatabaseError::ValueError),
        }
    }

    /// The first step of creating a post: the slug is normalized, and looked up to see
    /// whether it is taken.
    pub open spec fn create_post_step(
        &self,
        slug: Text,
        content: Text,
        password: Text,
        ip: Text,
        fresh: FreshView,
    ) -> StepView {
        match normalized(slug) {
            Some(key) => self.lookup_step(
                key,
                AfterView::Create { content, draft: DraftView { slug: key, password, ip, fresh } },
            ),
            None => failed(DatabaseError::ValueError),
        }
    }

    /// The first step of creating a post from a template: the slug is normalized, and
    /// looked up to see whether it is taken.
    pub open spec fn clone_post_step(
        &self,
        source: Text,
        slug: Text,
        password: Text,
        ip: Text,
        fresh: FreshView,
    ) -> StepView {
        match normalized(slug) {
            Some(key) => self.lookup_step(
                key,
                AfterView::CloneTarget {
                    source,
                    draft: DraftView { slug: key, password, ip, fresh },
                },
            ),
            None => failed(DatabaseError::ValueError),
        }
    }

    /// The first step of changing the post `slug`: the post is looked up.
    pub open spec fn change_step(
        &self,
        slug: Text,
        password: Text,
        user: Option<IdentityView>,
        change: ChangeView,
    ) -> StepView {
        match normalized(slug) {
            Some(key) => self.lookup_step(key, AfterView::Change { password, user, change }),
            None => failed(DatabaseError::ValueError),
        }
    }

    /// The first step of editing the post `slug` at the time `now`.
    pub open spec fn edit_post_step(
        &self,
        slug: Text,
        ip: Text,
        password: Text,
        new_content: Text,
        new_slug: Text,
        new_password: Text,
        user: Option<IdentityView>,
        now: u128,
    ) -> StepView {
        self.change_step(
            slug,
            password,
            user,
            ChangeView::Edit {
                ip,
                content: new_content,
                slug: new_slug,
                password: new_password,
                now,
            },
        )
    }

    /// The first step of counting the views of `slug`: the cache is asked for the counter.
    pub open spec fn get_views_step(&self, slug: Text) -> StepView {
        match normalized(slug) {
            Some(key) => StepView::Ask(
                RequestView::CachedCount { key: self.view_key(key) },
                TaskView::Counting { slug: key },
            ),
            None => failed(DatabaseError::ValueError),
        }
    }

    /// The first step of counting one more view of `slug`: the cache is told to add one to
    /// the counter.
    pub open spec fn incr_views_step(&self, slug: Text) -> StepView {
        match normalized(slug) {
            Some(key) => StepView::Ask(
                RequestView::Increment { key: self.view_key(key) },
                TaskView::Incrementing,
            ),
            None => failed(DatabaseError::ValueError),
        }
    }

    /// The first step of asking whether the viewer `id` has viewed `slug`. Only a durable
    /// view log can tell.
    pub open spec fn viewed_step(&self, slug: Text, id: Text) -> StepView {
        if self.durable() {
            StepView::Ask(
                RequestView::FetchView {
                    query: select_view_text(&self.config.table_views, self.placeholders),
                    slug,
                    id,
                },
                TaskView::Viewing,
            )
        } else {
            StepView::Done(OutcomeView::Viewed(false))
        }
    }

    /// The first step of setting the store up: the table of posts is created.
    pub open spec fn init_step(&self) -> StepView {
        StepView::Ask(
            RequestView::CreateTable { statement: create_posts_text(&self.config.table_posts) },
            TaskView::CreatingPosts,
        )
    }

    /// An engine for a relational store of the given type.
    pub fn new(database_type: &str, config: Config) -> (r: Database)
        ensures
            r.config == config,
            r.placeholders == Placeholders::of_type(database_type@),
    {
        Database { config, placeholders: Placeholders::for_type(database_type) }
    }

    fn lookup(&self, slug: String, after: After) -> (r: Step)
        ensures
            r@ == self.lookup_step(slug@, after@),
    {
        let key = cache_key(self.config.table_posts.prefix.as_str(), slug.as_str());
        Step::Ask(Request::CachedPost { key }, Task::Cached { slug, after })
    }

    fn insert(&self, built: Result<(String, Post), DatabaseError>) -> (r: Step)
        ensures
            r@ == self.insert_step(built_view(built)),
    {
        match built {
            Ok((password, post)) => {
                let query = insert_post(&self.config.table_posts, self.placeholders);
                let stored = post.clone();
                Step::Ask(
                    Request::InsertPost { query, post: stored },
                    Task::Inserting { password, post },
                )
            },
            Err(e) => Step::Done(Outcome::Failed(e)),
        }
    }

    fn write(&self, slug: String, ready: Ready) -> (r: Step)
        ensures
            r@ == self.write_step(slug@, ready@),
    {
        match ready {
            Ready::Delete => {
                let key = cache_key(self.config.table_views.prefix.as_str(), slug.as_str());
                Step::Ask(Request::Forget { key }, Task::DroppingCounter { slug })
            },
            Ready::Edit { change } => {
                let query = update_post(&self.config.table_posts, self.placeholders);
                let target = slug.clone();
                Step::Ask(
                    Request::UpdatePost { query, change, slug: target },
                    Task::Updating { slug },
                )
            },
            Ready::Context { context } => {
                let query = update_context(&self.config.table_posts, self.placeholders);
                let target = slug.clone();
                Step::Ask(
                    Request::UpdateContext { query, context, slug: target },
                    Task::Updating { slug },
                )
            },
        }
    }

    fn attribute(&self, slug: String, audit: Option<(String, String)>, ready: Ready) -> (r: Step)
        ensures
            r@ == self.attribute_step(slug@, audit_view(audit), ready@),
    {
        match audit {
            Some((actor, message)) => Step::Ask(
                Request::Audit { actor, message },
                Task::Auditing { slug, ready },
            ),
            None => self.write(slug, ready),
        }
    }

    fn allowed(&self, existing: Post, slug: String, actor: Option<String>, change: Change) -> (r:
        Step)
        ensures
            r@ == self.allowed_step(
                existing@,
                slug@,
                match actor {
                    Some(actor) => Some(actor@),
                    None => None,
                },
                change@,
            ),
    {
        let audit = match actor {
            Some(actor) => Some((actor, change.audit_message(existing.slug.as_str()))),
            None => None,
        };
        match prepare(existing, change) {
            Err(e) => Step::Done(Outcome::Failed(e)),
            Ok(Ready::Edit { change: written }) => {
                if written.slug == slug {
                    self.attribute(slug, audit, Ready::Edit { change: written })
                } else {
                    let target = written.slug.clone();
                    self.lookup(target, After::Rename { slug, audit, edit: written })
                }
            },
            Ok(ready) => self.attribute(slug, audit, ready),
        }
    }

    fn found(&self, slug: String, after: After, found: Result<Post, DatabaseError>) -> (r: Step)
        ensures
            r@ == self.found_step(slug@, after@, found_view(found)),
    {
        match after {
            After::Get => match found {
                Ok(post) => Step::Done(Outcome::Post(post)),
                Err(e) => Step::Done(Outcome::Failed(e)),
            },
            After::Create { content, draft } => match found {
                Ok(_) => Step::Done(Outcome::Failed(DatabaseError::AlreadyExists)),
                Err(_) => {
                    let digest = hash(draft.password());
                    self.insert(draft.build(content, PostContext::default(), true, digest))
                },
            },
            After::CloneTarget { source, draft } => match found {
                Ok(_) => Step::Done(Outcome::Failed(DatabaseError::AlreadyExists)),
                Err(_) => match normalize(source.as_str()) {
                    Ok(key) => self.lookup(key, After::CloneSource { draft }),
                    Err(_) => Step::Done(Outcome::Failed(DatabaseError::ValueError)),
                },
            },
            After::CloneSource { draft } => match found {
                Ok(source) => {
                    let content = source.content.clone();
                    let context = PostContext::from(source);
                    let digest = hash(draft.password());
                    self.insert(draft.build(content, context, false, digest))
                },
                Err(e) => Step::Done(Outcome::Failed(e)),
            },
            After::Change { password, user, change } => match found {
                Ok(existing) => match user {
                    Some(identity) => Step::Ask(
                        Request::Permissions { group: identity.group },
                        Task::Authorizing { existing, slug, actor: identity.id, change },
                    ),
                    None => match authorize(existing.password.as_str(), password.as_str(), None) {
                        Access::Granted { .. } => self.allowed(existing, slug, None, change),
                        Access::Denied(e) => Step::Done(Outcome::Failed(e)),
                    },
                },
                Err(e) => Step::Done(Outcome::Failed(e)),
            },
            After::Rename { slug: stored, audit, edit } => match found {
                Ok(_) => Step::Done(Outcome::Failed(DatabaseError::AlreadyExists)),
                Err(_) => self.attribute(stored, audit, Ready::Edit { change: edit }),
            },
        }
    }

    /// Resumes `task` with the reply to what it asked for.
    pub fn resume(&self, task: Task, reply: Reply) -> (r: Step)
        ensures
            r@ == self.next(task@, reply@),
    {
        match task {
            Task::Cached { slug, after } => match reply {
                Reply::Post(Some(post)) => self.found(slug, after, Ok(post)),
                _ => {
                    let query = select_post(&self.config.table_posts, self.placeholders);
                    let wanted = slug.clone();
                    Step::Ask(
                        Request::FetchPost { query, slug: wanted },
                        Task::Fetched { slug, after },
                    )
                },
            },
            Task::Fetched { slug, after } => match reply {
                Reply::Row(Some(row)) => match row.into_post() {
                    Ok(post) => {
                        let key = cache_key(
                            self.config.table_posts.prefix.as_str(),
                            slug.as_str(),
                        );
                        let cached = post.clone();
                        Step::Ask(
                            Request::CachePost { key, post: cached },
                            Task::Stored { post, slug, after },
                        )
                    },
                    Err(_) => self.found(slug, after, Err(DatabaseError::ValueError)),
                },
                _ => self.found(slug, after, Err(DatabaseError::NotFound)),
            },
            Task::Stored { post, slug, after } => self.found(slug, after, Ok(post)),
            Task::Inserting { password, post } => match reply {
                Reply::Done(true) => Step::Done(Outcome::Created(password, post)),
                Reply::Invalid => Step::Done(Outcome::Failed(DatabaseError::ValueError)),
                _ => Step::Done(Outcome::Failed(DatabaseError::Other)),
            },
            Task::Authorizing { existing, slug, actor, change } => match reply {
                Reply::Permissions(Some(permissions)) => match authorize(
                    existing.password.as_str(),
                    "",
                    Some(&permissions),
                ) {
                    Access::Granted { .. } => self.allowed(existing, slug, Some(actor), change),
                    Access::Denied(e) => Step::Done(Outcome::Failed(e)),
                },
                _ => Step::Done(Outcome::Failed(DatabaseError::Other)),
            },
            Task::Auditing { slug, ready } => match reply {
                Reply::Done(true) => self.write(slug, ready),
                _ => Step::Done(Outcome::Failed(DatabaseError::Other)),
            },
            Task::Updating { slug } => match reply {
                Reply::Done(true) => {
                    let key = cache_key(self.config.table_posts.prefix.as_str(), slug.as_str());
                    Step::Ask(Request::Forget { key }, Task::Finishing)
                },
                Reply::Invalid => Step::Done(Outcome::Failed(DatabaseError::ValueError)),
                _ => Step::Done(Outcome::Failed(DatabaseError::Other)),
            },
            Task::Finishing => Step::Done(Outcome::Done),
            Task::DroppingCounter { slug } => {
                let query = delete_post(&self.config.table_posts, self.placeholders);
                let target = slug.clone();
                Step::Ask(Request::DeletePost { query, slug: target }, Task::DeletingRow { slug })
            },
            Task::DeletingRow { slug } => match reply {
                Reply::Done(true) => {
                    let key = cache_key(self.config.table_posts.prefix.as_str(), slug.as_str());
                    Step::Ask(Request::Forget { key }, Task::DroppingPost { slug })
                },
                _ => Step::Done(Outcome::Failed(DatabaseError::Other)),
            },
            Task::DroppingPost { slug } => {
                if self.config.view_mode == ViewMode::AuthenticatedOnce {
                    let query = delete_views(&self.config.table_views, self.placeholders);
                    Step::Ask(Request::DeleteViews { query, slug }, Task::DeletingViews)
                } else {
                    Step::Done(Outcome::Done)
                }
            },
            Task::DeletingViews => match reply {
                Reply::Done(true) => Step::Done(Outcome::Done),
                _ => Step::Done(Outcome::Failed(DatabaseError::Other)),
            },
            Task::Counting { slug } => match reply {
                Reply::Count(Some(count)) => Step::Done(Outcome::Views(count)),
                _ => {
                    if self.config.view_mode == ViewMode::AuthenticatedOnce {
                        let query = select_views(&self.config.table_views, self.placeholders);
                        let wanted = slug.clone();
                        Step::Ask(
                            Request::CountViews { query, slug: wanted },
                            Task::Tallying { slug },
                        )
                    } else {
                        Step::Done(Outcome::Views(0))
                    }
                },
            },
            Task::Tallying { slug } => match reply {
                Reply::Total(Some(count)) => {
                    let key = cache_key(self.config.table_views.prefix.as_str(), slug.as_str());
                    Step::Ask(Request::CacheCount { key, count }, Task::Remembering { count })
                },
                _ => Step::Done(Outcome::Views(0)),
            },
            Task::Remembering { count } => {
                let views = #[verifier::truncate]
                (count as i32);
                Step::Done(Outcome::Views(views))
            },
            Task::Incrementing => match reply {
                Reply::Done(true) => Step::Done(Outcome::Done),
                _ => Step::Done(Outcome::Failed(DatabaseError::Other)),
            },
            Task::Viewing => match reply {
                Reply::Done(seen) => Step::Done(Outcome::Viewed(seen)),
                _ => Step::Done(Outcome::Viewed(false)),
            },
            Task::CreatingPosts => {
                if self.config.view_mode == ViewMode::AuthenticatedOnce {
                    let statement = create_views(&self.config.table_views);
                    Step::Ask(Request::CreateTable { statement }, Task::CreatingViews)
                } else {
                    Step::Done(Outcome::Done)
                }
            },
            Task::CreatingViews => Step::Done(Outcome::Done),
        }
    }

    fn change(&self, slug: String, password: String, user: Option<Identity>, change: Change) -> (r:
        Step)
        ensures
            r@ == self.change_step(slug@, password@, user_view(user), change@),
    {
        match normalize(slug.as_str()) {
            Ok(key) => self.lookup(key, After::Change { password, user, change }),
            Err(_) => Step::Done(Outcome::Failed(DatabaseError::ValueError)),
        }
    }

    /// Sets the store up: creates the table of posts and, where views are counted by a
    /// durable view log, the table of that log.
    pub fn init(&self) -> (r: Step)
        ensures
            r@ == self.init_step(),
    {
        let statement = create_posts(&self.config.table_posts);
        Step::Ask(Request::CreateTable { statement }, Task::CreatingPosts)
    }

    /// Reads the post `slug`.
    pub fn get_post(&self, slug: String) -> (r: Step)
        ensures
            r@ == self.get_post_step(slug@),
    {
        match normalize(slug.as_str()) {
            Ok(key) => self.lookup(key, After::Get),
            Err(_) => Step::Done(Outcome::Failed(DatabaseError::ValueError)),
        }
    }

    /// Creates a post, with `fresh` as what is drawn for it.
    pub fn create_post_with(&self, props: CreatePost, ip: String, fresh: Fresh) -> (r: Step)
        ensures
            r@ == self.create_post_step(props.slug@, props.content@, props.password@, ip@, fresh@),
    {
        match normalize(props.slug.as_str()) {
            Ok(key) => {
                let wanted = key.clone();
                self.lookup(
                    wanted,
                    After::Create {
                        content: props.content,
                        draft: Draft { slug: key, password: props.password, ip, fresh },
                    },
                )
            },
            Err(_) => Step::Done(Outcome::Failed(DatabaseError::ValueError)),
        }
    }

    /// Creates a post. Its identifier is drawn at random, and so are its slug and its edit
    /// password where `props` gives none; the clock gives its dates.
    pub fn create_post(&self, props: CreatePost, ip: String) -> (r: Step)
        ensures
            exists|fresh: FreshView| #[trigger]
                fresh.well_formed() && r@ == self.create_post_step(
                    props.slug@,
                    props.content@,
                    props.password@,
                    ip@,
                    fresh,
                ),
    {
        let fresh = Fresh::draw();
        let ghost drawn = fresh@;
        let step = self.create_post_with(props, ip, fresh);
        assert(drawn.well_formed());
        step
    }

    /// Creates a post from a template, with `fresh` as what is drawn for it.
    pub fn clone_post_with(&self, props: ClonePost, ip: String, fresh: Fresh) -> (r: Step)
        ensures
            r@ == self.clone_post_step(props.source@, props.slug@, props.password@, ip@, fresh@),
    {
        match normalize(props.slug.as_str()) {
            Ok(key) => {
                let wanted = key.clone();
                self.lookup(
                    wanted,
                    After::CloneTarget {
                        source: props.source,
                        draft: Draft { slug: key, password: props.password, ip, fresh },
                    },
                )
            },
            Err(_) => Step::Done(Outcome::Failed(DatabaseError::ValueError)),
        }
    }

    /// Creates a post from a template: the new post has the content of the post
    /// `props.source`, and names it as its template.
    pub fn clone_post(&self, props: ClonePost, ip: String) -> (r: Step)
        ensures
            exists|fresh: FreshView| #[trigger]
                fresh.well_formed() && r@ == self.clone_post_step(
                    props.source@,
                    props.slug@,
                    props.password@,
                    ip@,
                    fresh,
                ),
    {
        let fresh = Fresh::draw();
        let ghost drawn = fresh@;
        let step = self.clone_post_with(props, ip, fresh);
        assert(drawn.well_formed());
        step
    }

    /// Deletes the post `slug`.
    pub fn delete_post(&self, slug: String, password: String, user: Option<Identity>) -> (r: Step)
        ensures
            r@ == self.change_step(slug@, password@, user_view(user), ChangeView::Delete),
    {
        self.change(slug, password, user, Change::Delete)
    }

    /// Edits the post `slug` at the time `now`.
    pub fn edit_post_at(
        &self,
        slug: String,
        ip: String,
        password: String,
        new_content: String,
        new_slug: String,
        new_password: String,
        user: Option<Identity>,
        now: u128,
    ) -> (r: Step)
        ensures
            r@ == self.edit_post_step(
                slug@,
                ip@,
                password@,
                new_content@,
                new_slug@,
                new_password@,
                user_view(user),
                now,
            ),
    {
        self.change(
            slug,
            password,
            user,
            Change::Edit {
                ip,
                content: new_content,
                slug: new_slug,
                password: new_password,
                now,
            },
        )
    }

    /// Edits the post `slug`, at the time that the clock gives.
    pub fn edit_post(
        &self,
        slug: String,
        ip: String,
        password: String,
        new_content: String,
        new_slug: String,
        new_password: String,
        user: Option<Identity>,
    ) -> (r: Step)
        ensures
            exists|now: u128|
                r@ == #[trigger] self.edit_post_step(
                    slug@,
                    ip@,
                    password@,
                    new_content@,
                    new_slug@,
                    new_password@,
                    user_view(user),
                    now,
                ),
    {
        let now = unix_epoch_timestamp();
        self.edit_post_at(slug, ip, password, new_content, new_slug, new_password, user, now)
    }

    /// Replaces the metadata of the post `slug`.
    pub fn edit_post_context(
        &self,
        slug: String,
        password: String,
        context: PostContext,
        user: Option<Identity>,
    ) -> (r: Step)
        ensures
            r@ == self.change_step(
                slug@,
                password@,
                user_view(user),
                ChangeView::Context { context: context@ },
            ),
    {
        self.change(slug, password, user, Change::Context { context })
    }

    /// Counts the views of `slug`.
    pub fn get_views_by_slug(&self, slug: String) -> (r: Step)
        ensures
            r@ == self.get_views_step(slug@),
    {
        match normalize(slug.as_str()) {
            Ok(key) => {
                let cache = cache_key(self.config.table_views.prefix.as_str(), key.as_str());
                Step::Ask(Request::CachedCount { key: cache }, Task::Counting { slug: key })
            },
            Err(_) => Step::Done(Outcome::Failed(DatabaseError::ValueError)),
        }
    }

    /// Counts one more view of `slug`.
    pub fn incr_views_by_slug(&self, slug: String) -> (r: Step)
        ensures
            r@ == self.incr_views_step(slug@),
    {
        match normalize(slug.as_str()) {
            Ok(key) => {
                let cache = cache_key(self.config.table_views.prefix.as_str(), key.as_str());
                Step::Ask(Request::Increment { key: cache }, Task::Incrementing)
            },
            Err(_) => Step::Done(Outcome::Failed(DatabaseError::ValueError)),
        }
    }

    /// Asks whether the viewer `id` has viewed `slug`.
    pub fn user_has_viewed_post(&self, slug: String, id: String) -> (r: Step)
        ensures
            r@ == self.viewed_step(slug@, id@),
    {
        if self.config.view_mode == ViewMode::AuthenticatedOnce {
            let query = select_view(&self.config.table_views, self.placeholders);
            Step::Ask(Request::FetchView { query, slug, id }, Task::Viewing)
        } else {
            Step::Done(Outcome::Viewed(false))
        }
    }
}

} // verus!

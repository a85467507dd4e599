//! A model of what surrounds the engine: a relational store, a cache and an identity
//! service that answer every request faithfully. It exists in contracts only, and says what
//! an operation comes to when its requests are answered that way.
use crate::auth::Permission;
use crate::database::{AfterView, Database, ReadyView, StepView, TaskView};
use crate::model::{PostContextView, PostView, Text};
use crate::protocol::{OutcomeView, PostChangeView, ReplyView, RequestView, RowView};
use vstd::prelude::*;

verus! {

/// What the cache holds under a key.
#[verifier::ext_equal]
pub enum Cached {
    /// A post.
    Post(PostView),
    /// A view counter.
    Count(int),
}

/// The state of everything that the engine talks to.
#[verifier::ext_equal]
pub struct Backend {
    /// The rows of the table of posts, in the order in which they were stored. The table
    /// itself does not keep slugs unique.
    pub posts: Seq<PostView>,
    /// The rows of the view log: (slug, viewer).
    pub views: Seq<(Text, Text)>,
    /// The cache.
    pub cache: Map<Text, Cached>,
    /// The permissions of each group that the identity service knows.
    pub groups: Map<i32, Seq<Permission>>,
    /// The audit trail: (actor, message), the most recent last.
    pub audit: Seq<(Text, Text)>,
}

/// The first row of `slug`, which is the one that a read of the store gives.
pub open spec fn find(posts: Seq<PostView>, slug: Text) -> Option<PostView>
    decreases posts.len(),
{
    if posts.len() == 0 {
        None
    } else if posts[0].slug == slug {
        Some(posts[0])
    } else {
        find(posts.drop_first(), slug)
    }
}

/// The rows without those of `slug`.
pub open spec fn without(posts: Seq<PostView>, slug: Text) -> Seq<PostView>
    decreases posts.len(),
{
    if posts.len() == 0 {
        posts
    } else if posts[0].slug == slug {
        without(posts.drop_first(), slug)
    } else {
        seq![posts[0]] + without(posts.drop_first(), slug)
    }
}

/// The rows with `change` written over those of `slug`.
pub open spec fn rewritten(posts: Seq<PostView>, slug: Text, change: PostChangeView) -> Seq<
    PostView,
>
    decreases posts.len(),
{
    if posts.len() == 0 {
        posts
    } else {
        seq![
            if posts[0].slug == slug {
                change.apply(posts[0])
            } else {
                posts[0]
            },
        ] + rewritten(posts.drop_first(), slug, change)
    }
}

/// A post with other metadata.
pub open spec fn with_context(post: PostView, context: PostContextView) -> PostView {
    PostView {
        id: post.id,
        slug: post.slug,
        content: post.content,
        password: post.password,
        date_published: post.date_published,
        date_edited: post.date_edited,
        context,
        ips: post.ips,
    }
}

/// The rows with `context` written over the metadata of those of `slug`.
pub open spec fn recontexted(posts: Seq<PostView>, slug: Text, context: PostContextView) -> Seq<
    PostView,
>
    decreases posts.len(),
{
    if posts.len() == 0 {
        posts
    } else {
        seq![
            if posts[0].slug == slug {
                with_context(posts[0], context)
            } else {
                posts[0]
            },
        ] + recontexted(posts.drop_first(), slug, context)
    }
}

/// The number of rows of `slug` in the table of posts.
pub open spec fn rows_of(posts: Seq<PostView>, slug: Text) -> nat
    decreases posts.len(),
{
    if posts.len() == 0 {
        0
    } else if posts[0].slug == slug {
        1 + rows_of(posts.drop_first(), slug)
    } else {
        rows_of(posts.drop_first(), slug)
    }
}

/// Whether no two rows of the table of posts have one slug.
pub open spec fn unique_slugs(posts: Seq<PostView>) -> bool {
    forall|slug: Text| #[trigger] rows_of(posts, slug) <= 1
}

/// The number of rows of the view log of `slug`.
pub open spec fn count_views(views: Seq<(Text, Text)>, slug: Text) -> nat
    decreases views.len(),
{
    if views.len() == 0 {
        0
    } else if views[0].0 == slug {
        1 + count_views(views.drop_first(), slug)
    } else {
        count_views(views.drop_first(), slug)
    }
}

/// The view log without the rows of `slug`.
pub open spec fn without_views(views: Seq<(Text, Text)>, slug: Text) -> Seq<(Text, Text)>
    decreases views.len(),
{
    if views.len() == 0 {
        views
    } else if views[0].0 == slug {
        without_views(views.drop_first(), slug)
    } else {
        seq![views[0]] + without_views(views.drop_first(), slug)
    }
}

impl Backend {
    /// The post that the cache holds under `key`.
    pub open spec fn cached_post(self, key: Text) -> Option<PostView> {
        if self.cache.dom().contains(key) {
            match self.cache[key] {
                Cached::Post(post) => Some(post),
                Cached::Count(_) => None,
            }
        } else {
            None
        }
    }

    /// The view counter that the cache holds under `key`, where it is one that the engine
    /// can read.
    pub open spec fn cached_count(self, key: Text) -> Option<i32> {
        if self.cache.dom().contains(key) {
            match self.cache[key] {
                Cached::Count(count) => if 0 <= count <= i32::MAX {
                    Some(count as i32)
                } else {
                    None
                },
                Cached::Post(_) => None,
            }
        } else {
            None
        }
    }

    /// The permissions of a group. A group that the identity service does not know has
    /// none.
    pub open spec fn permissions(self, group: i32) -> Seq<Permission> {
        if self.groups.dom().contains(group) {
            self.groups[group]
        } else {
            Seq::empty()
        }
    }

    /// The backend with another cache.
    pub open spec fn with_cache(self, cache: Map<Text, Cached>) -> Backend {
        Backend {
            posts: self.posts,
            views: self.views,
            cache,
            groups: self.groups,
            audit: self.audit,
        }
    }

    /// The backend with other rows in the table of posts.
    pub open spec fn with_posts(self, posts: Seq<PostView>) -> Backend {
        Backend {
            posts,
            views: self.views,
            cache: self.cache,
            groups: self.groups,
            audit: self.audit,
        }
    }

    /// The backend with other rows in the view log.
    pub open spec fn with_views(self, views: Seq<(Text, Text)>) -> Backend {
        Backend {
            posts: self.posts,
            views,
            cache: self.cache,
            groups: self.groups,
            audit: self.audit,
        }
    }

    /// The backend with another audit trail.
    pub open spec fn with_audit(self, audit: Seq<(Text, Text)>) -> Backend {
        Backend {
            posts: self.posts,
            views: self.views,
            cache: self.cache,
            groups: self.groups,
            audit,
        }
    }

    /// What a request does to the backend, and the reply to it. The text of a statement is
    /// not read: a request means what its kind and its parameters say.
    ///
    /// Nothing fails here but adding one to a cache entry that holds a post.
    pub open spec fn answer(self, request: RequestView) -> (Backend, ReplyView) {
        match request {
            RequestView::CachedPost { key } => (self, ReplyView::Post(self.cached_post(key))),
            RequestView::CachePost { key, post } => (
                self.with_cache(self.cache.insert(key, Cached::Post(post))),
                ReplyView::Done(true),
            ),
            RequestView::CachedCount { key } => (self, ReplyView::Count(self.cached_count(key))),
            RequestView::CacheCount { key, count } => (
                self.with_cache(self.cache.insert(key, Cached::Count(count as int))),
                ReplyView::Done(true),
            ),
            RequestView::Forget { key } => (
                self.with_cache(self.cache.remove(key)),
                ReplyView::Done(true),
            ),
            RequestView::Increment { key } => if !self.cache.dom().contains(key) {
                (self.with_cache(self.cache.insert(key, Cached::Count(1))), ReplyView::Done(true))
            } else {
                match self.cache[key] {
                    Cached::Count(count) => (
                        self.with_cache(self.cache.insert(key, Cached::Count(count + 1))),
                        ReplyView::Done(true),
                    ),
                    Cached::Post(_) => (self, ReplyView::Done(false)),
                }
            },
            RequestView::FetchPost { query, slug } => (
                self,
                ReplyView::Row(
                    match find(self.posts, slug) {
                        Some(post) => Some(RowView::of(post)),
                        None => None,
                    },
                ),
            ),
            RequestView::InsertPost { query, post } => (
                self.with_posts(self.posts.push(post)),
                ReplyView::Done(true),
            ),
            RequestView::UpdatePost { query, change, slug } => (
                self.with_posts(rewritten(self.posts, slug, change)),
                ReplyView::Done(true),
            ),
            RequestView::UpdateContext { query, context, slug } => (
                self.with_posts(recontexted(self.posts, slug, context)),
                ReplyView::Done(true),
            ),
            RequestView::DeletePost { query, slug } => (
                self.with_posts(without(self.posts, slug)),
                ReplyView::Done(true),
            ),
            RequestView::CountViews { query, slug } => (
                self,
                ReplyView::Total(
                    if count_views(self.views, slug) <= usize::MAX {
                        Some(count_views(self.views, slug) as usize)
                    } else {
                        None
                    },
                ),
            ),
            RequestView::FetchView { query, slug, id } => (
                self,
                ReplyView::Done(self.views.contains((slug, id))),
            ),
            RequestView::DeleteViews { query, slug } => (
                self.with_views(without_views(self.views, slug)),
                ReplyView::Done(true),
            ),
            RequestView::CreateTable { statement } => (self, ReplyView::Done(true)),
            RequestView::Permissions { group } => (
                self,
                ReplyView::Permissions(Some(self.permissions(group))),
            ),
            RequestView::Audit { actor, message } => (
                self.with_audit(self.audit.push((actor, message))),
                ReplyView::Done(true),
            ),
        }
    }
}

/// The most requests that an operation can still make once a lookup has found its post or
/// failed.
pub open spec fn requests_after(after: AfterView) -> nat {
    match after {
        AfterView::Get => 0,
        AfterView::Create { .. } => 1,
        AfterView::CloneTarget { .. } => 4,
        AfterView::CloneSource { .. } => 1,
        AfterView::Change { .. } => 7,
        AfterView::Rename { .. } => 3,
    }
}

/// The requests that it takes to write a checked change.
pub open spec fn requests_to_write(ready: ReadyView) -> nat {
    match ready {
        ReadyView::Delete => 4,
        ReadyView::Edit { .. } => 2,
        ReadyView::Context { .. } => 2,
    }
}

/// The most requests that an operation can still make, the one that `task` waits for
/// included.
pub open spec fn requests_left(task: TaskView) -> nat {
    match task {
        TaskView::Cached { after, .. } => 3 + requests_after(after),
        TaskView::Fetched { after, .. } => 2 + requests_after(after),
        TaskView::Stored { after, .. } => 1 + requests_after(after),
        TaskView::Inserting { .. } => 1,
        TaskView::Authorizing { .. } => 7,
        TaskView::Auditing { ready, .. } => 1 + requests_to_write(ready),
        TaskView::Updating { .. } => 2,
        TaskView::Finishing => 1,
        TaskView::DroppingCounter { .. } => 4,
        TaskView::DeletingRow { .. } => 3,
        TaskView::DroppingPost { .. } => 2,
        TaskView::DeletingViews => 1,
        TaskView::Counting { .. } => 3,
        TaskView::Tallying { .. } => 2,
        TaskView::Remembering { .. } => 1,
        TaskView::Incrementing => 1,
        TaskView::Viewing => 1,
        TaskView::CreatingPosts => 2,
        TaskView::CreatingViews => 1,
    }
}

/// The most requests that an operation can still make from a step on.
pub open spec fn requests_from(step: StepView) -> nat {
    match step {
        StepView::Ask(_, task) => requests_left(task),
        StepView::Done(_) => 0,
    }
}

/// Every reply brings an operation closer to its end, whatever the reply is: no operation
/// makes more than ten requests.
pub proof fn lemma_every_reply_advances(db: &Database, task: TaskView, reply: ReplyView)
    ensures
        requests_from(db.next(task, reply)) < requests_left(task),
        requests_left(task) <= 10,
{
}

/// What an operation comes to from `step` on, where the backend answers every request: the
/// backend as the operation leaves it, and the outcome.
pub open spec fn run(db: &Database, world: Backend, step: StepView) -> (Backend, OutcomeView)
    decreases requests_from(step),
{
    match step {
        StepView::Done(outcome) => (world, outcome),
        StepView::Ask(request, task) => {
            let (after, reply) = world.answer(request);
            proof {
                lemma_every_reply_advances(db, task, reply);
            }
            run(db, after, db.next(task, reply))
        },
    }
}

/// The first row of a slug has that slug.
pub proof fn lemma_find_has_slug(posts: Seq<PostView>, slug: Text)
    ensures
        find(posts, slug) matches Some(post) ==> post.slug == slug,
    decreases posts.len(),
{
    if posts.len() > 0 && posts[0].slug != slug {
        lemma_find_has_slug(posts.drop_first(), slug);
    }
}

/// After a row is added, the first row of every slug is what it was; the new row is the
/// first of its slug where that slug had none.
pub proof fn lemma_find_after_insert(posts: Seq<PostView>, post: PostView, slug: Text)
    ensures
        find(posts.push(post), slug) == (if find(posts, slug) is Some {
            find(posts, slug)
        } else if post.slug == slug {
            Some(post)
        } else {
            None
        }),
    decreases posts.len(),
{
    if posts.len() == 0 {
        assert(posts.push(post).drop_first() =~= posts);
    } else {
        assert(posts.push(post).drop_first() =~= posts.drop_first().push(post));
        if posts[0].slug != slug {
            lemma_find_after_insert(posts.drop_first(), post, slug);
        }
    }
}

/// After the rows of a slug are removed, that slug has no row, and the first row of every
/// other slug is what it was.
pub proof fn lemma_find_after_delete(posts: Seq<PostView>, removed: Text, slug: Text)
    ensures
        find(without(posts, removed), slug) == (if slug == removed {
            None
        } else {
            find(posts, slug)
        }),
    decreases posts.len(),
{
    if posts.len() > 0 {
        lemma_find_after_delete(posts.drop_first(), removed, slug);
        if posts[0].slug != removed {
            let rest = without(posts.drop_first(), removed);
            assert((seq![posts[0]] + rest).drop_first() =~= rest);
        }
    }
}

/// After the view log of a slug is removed, that slug has no views.
pub proof fn lemma_no_views_after_delete(views: Seq<(Text, Text)>, slug: Text)
    ensures
        count_views(without_views(views, slug), slug) == 0,
    decreases views.len(),
{
    if views.len() > 0 {
        lemma_no_views_after_delete(views.drop_first(), slug);
        if views[0].0 != slug {
            let rest = without_views(views.drop_first(), slug);
            assert((seq![views[0]] + rest).drop_first() =~= rest);
        }
    }
}

/// After an edit that keeps the slug is written over the rows of that slug, the first row
/// of the slug is the edited first row, and the first row of every other slug is what it
/// was.
pub proof fn lemma_find_after_rewrite(
    posts: Seq<PostView>,
    slug: Text,
    change: PostChangeView,
    other: Text,
)
    requires
        change.slug == slug,
    ensures
        find(rewritten(posts, slug, change), other) == (match find(posts, other) {
            Some(post) => Some(
                if other == slug {
                    change.apply(post)
                } else {
                    post
                },
            ),
            None => None,
        }),
    decreases posts.len(),
{
    if posts.len() > 0 {
        lemma_find_after_rewrite(posts.drop_first(), slug, change, other);
        let head = if posts[0].slug == slug {
            change.apply(posts[0])
        } else {
            posts[0]
        };
        let rest = rewritten(posts.drop_first(), slug, change);
        assert((seq![head] + rest).drop_first() =~= rest);
    }
}

/// After metadata is written over the rows of a slug, the first row of the slug is the
/// first row with that metadata, and the first row of every other slug is what it was.
pub proof fn lemma_find_after_recontext(
    posts: Seq<PostView>,
    slug: Text,
    context: PostContextView,
    other: Text,
)
    ensures
        find(recontexted(posts, slug, context), other) == (match find(posts, other) {
            Some(post) => Some(
                if other == slug {
                    with_context(post, context)
                } else {
                    post
                },
            ),
            None => None,
        }),
    decreases posts.len(),
{
    if posts.len() > 0 {
        lemma_find_after_recontext(posts.drop_first(), slug, context, other);
        let head = if posts[0].slug == slug {
            with_context(posts[0], context)
        } else {
            posts[0]
        };
        let rest = recontexted(posts.drop_first(), slug, context);
        assert((seq![head] + rest).drop_first() =~= rest);
    }
}

/// A slug has a first row exactly where it has a row.
pub proof fn lemma_find_counts(posts: Seq<PostView>, slug: Text)
    ensures
        find(posts, slug) is None <==> rows_of(posts, slug) == 0,
    decreases posts.len(),
{
    if posts.len() > 0 {
        lemma_find_counts(posts.drop_first(), slug);
    }
}

/// A new row adds one to the rows of its slug, and nothing to those of another.
pub proof fn lemma_rows_after_insert(posts: Seq<PostView>, post: PostView, slug: Text)
    ensures
        rows_of(posts.push(post), slug) == rows_of(posts, slug) + (if post.slug == slug {
            1nat
        } else {
            0nat
        }),
    decreases posts.len(),
{
    if posts.len() == 0 {
        assert(posts.push(post).drop_first() =~= posts);
        assert(rows_of(posts.push(post).drop_first(), slug) == 0);
    } else {
        assert(posts.push(post).drop_first() =~= posts.drop_first().push(post));
        lemma_rows_after_insert(posts.drop_first(), post, slug);
    }
}

/// After the rows of a slug are removed, that slug has none, and every other slug has the
/// rows that it had.
pub proof fn lemma_rows_after_delete(posts: Seq<PostView>, removed: Text, slug: Text)
    ensures
        rows_of(without(posts, removed), slug) == (if slug == removed {
            0
        } else {
            rows_of(posts, slug)
        }),
    decreases posts.len(),
{
    if posts.len() > 0 {
        lemma_rows_after_delete(posts.drop_first(), removed, slug);
        if posts[0].slug != removed {
            let rest = without(posts.drop_first(), removed);
            assert((seq![posts[0]] + rest).drop_first() =~= rest);
        }
    }
}

/// After an edit is written over the rows of a slug, those rows are rows of the slug that
/// the edit gives them, and every other row is where it was.
pub proof fn lemma_rows_after_rewrite(
    posts: Seq<PostView>,
    target: Text,
    change: PostChangeView,
    slug: Text,
)
    ensures
        rows_of(rewritten(posts, target, change), slug) == (if change.slug == target {
            rows_of(posts, slug)
        } else if slug == target {
            0
        } else if slug == change.slug {
            rows_of(posts, slug) + rows_of(posts, target)
        } else {
            rows_of(posts, slug)
        }),
    decreases posts.len(),
{
    if posts.len() > 0 {
        lemma_rows_after_rewrite(posts.drop_first(), target, change, slug);
        let head = if posts[0].slug == target {
            change.apply(posts[0])
        } else {
            posts[0]
        };
        let rest = rewritten(posts.drop_first(), target, change);
        assert((seq![head] + rest).drop_first() =~= rest);
    }
}

/// Writing metadata over the rows of a slug leaves every slug the rows that it had.
pub proof fn lemma_rows_after_recontext(
    posts: Seq<PostView>,
    target: Text,
    context: PostContextView,
    slug: Text,
)
    ensures
        rows_of(recontexted(posts, target, context), slug) == rows_of(posts, slug),
    decreases posts.len(),
{
    if posts.len() > 0 {
        lemma_rows_after_recontext(posts.drop_first(), target, context, slug);
        let head = if posts[0].slug == target {
            with_context(posts[0], context)
        } else {
            posts[0]
        };
        let rest = recontexted(posts.drop_first(), target, context);
        assert((seq![head] + rest).drop_first() =~= rest);
    }
}

/// After an edit moves the rows of a slug to another slug that had none, the old slug has
/// no row, the first row of the new slug is the edited first row of the old one, and the
/// first row of every other slug is what it was.
pub proof fn lemma_find_after_rename(
    posts: Seq<PostView>,
    target: Text,
    change: PostChangeView,
    other: Text,
)
    requires
        change.slug != target,
        rows_of(posts, change.slug) == 0,
    ensures
        find(rewritten(posts, target, change), other) == (if other == target {
            None
        } else if other == change.slug {
            match find(posts, target) {
                Some(post) => Some(change.apply(post)),
                None => None,
            }
        } else {
            find(posts, other)
        }),
    decreases posts.len(),
{
    if posts.len() > 0 {
        lemma_find_after_rename(posts.drop_first(), target, change, other);
        let head = if posts[0].slug == target {
            change.apply(posts[0])
        } else {
            posts[0]
        };
        let rest = rewritten(posts.drop_first(), target, change);
        assert((seq![head] + rest).drop_first() =~= rest);
    }
}

} // verus!

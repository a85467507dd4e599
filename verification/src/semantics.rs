//! What each operation of the engine comes to over a backend that answers every request
//! faithfully: the backend as the operation leaves it, and the outcome, in closed form.
use crate::auth::{is_manager, IdentityView};
use crate::backend::{
    find, lemma_no_views_after_delete, recontexted, rewritten, run, without, without_views,
    Backend, Cached,
};
use crate::database::{
    prepared, AfterView, ChangeView, Database, DraftView, ReadyView, StepView, TaskView,
};
use crate::model::{DatabaseError, PostContextView, PostView, Text};
use crate::protocol::{OutcomeView, RequestView};
use crate::slug::normalized;
use crate::utility::{digest_of, FreshView};
use vstd::prelude::*;

verus! {

/// What a lookup of the post `slug` finds, and the backend as the lookup leaves it.
///
/// A post that the cache holds is found there, and nothing changes. Any other post is the
/// first row of the slug in the store, and is in the cache afterwards. Where there is no
/// such row either, the lookup fails with [`DatabaseError::NotFound`].
pub open spec fn resolve(db: &Database, world: Backend, slug: Text) -> (
    Backend,
    Result<PostView, DatabaseError>,
) {
    let key = db.post_key(slug);
    match world.cached_post(key) {
        Some(post) => (world, Ok(post)),
        None => match find(world.posts, slug) {
            Some(post) => (
                world.with_cache(world.cache.insert(key, Cached::Post(post))),
                Ok(post),
            ),
            None => (world, Err(DatabaseError::NotFound)),
        },
    }
}

/// Whether the cache holds no post under `slug` but the one that the store holds.
pub open spec fn coherent(db: &Database, world: Backend, slug: Text) -> bool {
    world.cached_post(db.post_key(slug)) matches Some(post) ==> find(world.posts, slug) == Some(
        post,
    )
}

/// Whether the cache agrees with the store: every post that it holds is the one that the
/// store holds under the slug.
pub open spec fn coherent_cache(db: &Database, world: Backend) -> bool {
    forall|slug: Text| #[trigger] coherent(db, world, slug)
}

/// Two slugs with one cache key are one slug.
pub proof fn lemma_post_key_injective(db: &Database, a: Text, b: Text)
    ensures
        db.post_key(a) == db.post_key(b) ==> a == b,
{
    let head = db.config.table_posts.prefix@ + ":"@;
    if db.post_key(a) == db.post_key(b) {
        assert(a =~= (head + a).subrange(head.len() as int, (head + a).len() as int));
        assert(b =~= (head + b).subrange(head.len() as int, (head + b).len() as int));
    }
}

/// A lookup comes to what [`resolve`] says, whatever it was made for.
pub proof fn lemma_lookup(db: &Database, world: Backend, slug: Text, after: AfterView)
    ensures
        run(db, world, db.lookup_step(slug, after)) == run(
            db,
            resolve(db, world, slug).0,
            db.found_step(slug, after, resolve(db, world, slug).1),
        ),
{
    reveal_with_fuel(run, 4);
}

/// Reading a post comes to a lookup: the post that the lookup finds is handed out.
pub proof fn lemma_get_post(db: &Database, world: Backend, slug: Text)
    ensures
        run(db, world, db.get_post_step(slug)) == (match normalized(slug) {
            Some(key) => (
                resolve(db, world, key).0,
                match resolve(db, world, key).1 {
                    Ok(post) => OutcomeView::Post(post),
                    Err(e) => OutcomeView::Failed(e),
                },
            ),
            None => (world, OutcomeView::Failed(DatabaseError::ValueError)),
        }),
{
    reveal_with_fuel(run, 2);
    match normalized(slug) {
        Some(key) => {
            lemma_lookup(db, world, key, AfterView::Get);
        },
        None => {},
    }
}

/// The error with which the authorization gate refuses a change to the post `existing`, if
/// it refuses it.
///
/// Without a delegated identity the password decides; with one, the permissions of its
/// group decide, and the password plays no part.
pub open spec fn refusal(
    world: Backend,
    existing: PostView,
    password: Text,
    user: Option<IdentityView>,
) -> Option<DatabaseError> {
    match user {
        Some(identity) => if is_manager(world.permissions(identity.group)) {
            None
        } else {
            Some(DatabaseError::NotAllowed)
        },
        None => if digest_of(password) == existing.password {
            None
        } else {
            Some(DatabaseError::PasswordIncorrect)
        },
    }
}

/// The one who makes a change, where it is made under a delegated identity.
pub open spec fn actor_of(user: Option<IdentityView>) -> Option<Text> {
    match user {
        Some(identity) => Some(identity.id),
        None => None,
    }
}

/// The entry that a change to the post `existing` gets in the audit trail: none without an
/// actor, else the actor and what the change does to which post.
pub open spec fn audit_of(existing: PostView, actor: Option<Text>, change: ChangeView) -> Option<
    (Text, Text),
> {
    match actor {
        Some(actor) => Some((actor, change.audit_message(existing.slug))),
        None => None,
    }
}

/// The backend with one more entry in the audit trail, where there is one.
pub open spec fn audited(world: Backend, audit: Option<(Text, Text)>) -> Backend {
    match audit {
        Some(entry) => world.with_audit(world.audit.push(entry)),
        None => world,
    }
}

/// The backend after the post `slug` and what belongs to it are removed: its view counter
/// and its cache entry, its rows and, where views are counted by a durable log, the rows
/// of that log.
pub open spec fn deleted(db: &Database, world: Backend, slug: Text) -> Backend {
    Backend {
        posts: without(world.posts, slug),
        views: if db.durable() {
            without_views(world.views, slug)
        } else {
            world.views
        },
        cache: world.cache.remove(db.view_key(slug)).remove(db.post_key(slug)),
        groups: world.groups,
        audit: world.audit,
    }
}

/// The backend after a checked change is written to the post `slug`.
///
/// A deletion removes the post and what belongs to it. An edit is written over the rows of
/// the slug, and so is new metadata; both are followed by the removal of the post from the
/// cache.
pub open spec fn written(db: &Database, world: Backend, slug: Text, ready: ReadyView) -> Backend {
    match ready {
        ReadyView::Delete => deleted(db, world, slug),
        ReadyView::Edit { change } => Backend {
            posts: rewritten(world.posts, slug, change),
            views: world.views,
            cache: world.cache.remove(db.post_key(slug)),
            groups: world.groups,
            audit: world.audit,
        },
        ReadyView::Context { context } => Backend {
            posts: recontexted(world.posts, slug, context),
            views: world.views,
            cache: world.cache.remove(db.post_key(slug)),
            groups: world.groups,
            audit: world.audit,
        },
    }
}

/// Writing a checked change comes to what [`written`] says, and ends well.
pub proof fn lemma_write(db: &Database, world: Backend, slug: Text, ready: ReadyView)
    ensures
        run(db, world, db.write_step(slug, ready)) == (
            written(db, world, slug, ready),
            OutcomeView::Done,
        ),
{
    match ready {
        ReadyView::Delete => {
            reveal_with_fuel(run, 5);
            let dropped = world.with_cache(world.cache.remove(db.view_key(slug)));
            let removed = dropped.with_posts(without(dropped.posts, slug));
            let forgotten = removed.with_cache(removed.cache.remove(db.post_key(slug)));
            assert(world.answer(RequestView::Forget { key: db.view_key(slug) }).0 == dropped);
            if db.durable() {
                assert(forgotten.with_views(without_views(forgotten.views, slug)) == deleted(
                    db,
                    world,
                    slug,
                ));
            } else {
                assert(forgotten == deleted(db, world, slug));
            }
        },
        _ => {
            reveal_with_fuel(run, 3);
        },
    }
}

/// Attributing and writing a checked change comes to one more entry in the audit trail,
/// where there is one, and to what [`written`] says.
pub proof fn lemma_attribute(
    db: &Database,
    world: Backend,
    slug: Text,
    audit: Option<(Text, Text)>,
    ready: ReadyView,
)
    ensures
        run(db, world, db.attribute_step(slug, audit, ready)) == (
            written(db, audited(world, audit), slug, ready),
            OutcomeView::Done,
        ),
{
    reveal_with_fuel(run, 2);
    lemma_write(db, audited(world, audit), slug, ready);
}

/// What a change that the authorization gate has allowed comes to: the backend as the
/// change leaves it, and the outcome.
///
/// A change that does not pass its checks fails, and touches nothing. An edit that is to
/// move the post looks the new slug up, and fails with [`DatabaseError::AlreadyExists`]
/// where a post is found there. Every other change is attributed and written.
pub open spec fn allowed(
    db: &Database,
    world: Backend,
    existing: PostView,
    slug: Text,
    actor: Option<Text>,
    change: ChangeView,
) -> (Backend, OutcomeView) {
    let audit = audit_of(existing, actor, change);
    match prepared(existing, change) {
        Err(e) => (world, OutcomeView::Failed(e)),
        Ok(ReadyView::Edit { change: edit }) => if edit.slug == slug {
            (
                written(db, audited(world, audit), slug, ReadyView::Edit { change: edit }),
                OutcomeView::Done,
            )
        } else {
            let (looked, found) = resolve(db, world, edit.slug);
            match found {
                Ok(_) => (looked, OutcomeView::Failed(DatabaseError::AlreadyExists)),
                Err(_) => (
                    written(db, audited(looked, audit), slug, ReadyView::Edit { change: edit }),
                    OutcomeView::Done,
                ),
            }
        },
        Ok(ready) => (written(db, audited(world, audit), slug, ready), OutcomeView::Done),
    }
}

/// A change that the authorization gate has allowed comes to what [`allowed`] says.
pub proof fn lemma_allowed(
    db: &Database,
    world: Backend,
    existing: PostView,
    slug: Text,
    actor: Option<Text>,
    change: ChangeView,
)
    ensures
        run(db, world, db.allowed_step(existing, slug, actor, change)) == allowed(
            db,
            world,
            existing,
            slug,
            actor,
            change,
        ),
{
    reveal_with_fuel(run, 1);
    let audit = audit_of(existing, actor, change);
    match prepared(existing, change) {
        Err(_) => {},
        Ok(ReadyView::Edit { change: edit }) => {
            let ready = ReadyView::Edit { change: edit };
            if edit.slug == slug {
                lemma_attribute(db, world, slug, audit, ready);
            } else {
                lemma_lookup(db, world, edit.slug, AfterView::Rename { slug, audit, edit });
                let looked = resolve(db, world, edit.slug).0;
                lemma_attribute(db, looked, slug, audit, ready);
            }
        },
        Ok(ready) => {
            lemma_attribute(db, world, slug, audit, ready);
        },
    }
}

/// What a change to the post `slug` comes to: the backend as the operation leaves it, and
/// the outcome.
///
/// The slug is normalized and the post looked up; the operation fails with the error of
/// the lookup. The authorization gate decides, and the change is made where it allows it.
pub open spec fn changed(
    db: &Database,
    world: Backend,
    slug: Text,
    password: Text,
    user: Option<IdentityView>,
    change: ChangeView,
) -> (Backend, OutcomeView) {
    match normalized(slug) {
        None => (world, OutcomeView::Failed(DatabaseError::ValueError)),
        Some(key) => {
            let (looked, found) = resolve(db, world, key);
            match found {
                Err(e) => (looked, OutcomeView::Failed(e)),
                Ok(existing) => match refusal(looked, existing, password, user) {
                    Some(e) => (looked, OutcomeView::Failed(e)),
                    None => allowed(db, looked, existing, key, actor_of(user), change),
                },
            }
        },
    }
}

/// A change to a post comes to what [`changed`] says.
pub proof fn lemma_change(
    db: &Database,
    world: Backend,
    slug: Text,
    password: Text,
    user: Option<IdentityView>,
    change: ChangeView,
)
    ensures
        run(db, world, db.change_step(slug, password, user, change)) == changed(
            db,
            world,
            slug,
            password,
            user,
            change,
        ),
{
    reveal_with_fuel(run, 2);
    match normalized(slug) {
        Some(key) => {
            lemma_lookup(db, world, key, AfterView::Change { password, user, change });
            let (looked, found) = resolve(db, world, key);
            match found {
                Ok(existing) => {
                    lemma_allowed(db, looked, existing, key, actor_of(user), change);
                },
                Err(_) => {},
            }
        },
        None => {},
    }
}

/// What creating a post comes to: the backend as the operation leaves it, and the outcome.
///
/// The slug is normalized and looked up. Where a post is found, nothing is stored. Where
/// none is, the post is built and validated, and stored as a new row.
pub open spec fn created(
    db: &Database,
    world: Backend,
    slug: Text,
    content: Text,
    password: Text,
    ip: Text,
    fresh: FreshView,
) -> (Backend, OutcomeView) {
    match normalized(slug) {
        None => (world, OutcomeView::Failed(DatabaseError::ValueError)),
        Some(key) => {
            let (looked, found) = resolve(db, world, key);
            match found {
                Ok(_) => (looked, OutcomeView::Failed(DatabaseError::AlreadyExists)),
                Err(_) => match (DraftView { slug: key, password, ip, fresh }).post(
                    content,
                    PostContextView::empty(),
                    true,
                ) {
                    Ok((plain, post)) => (
                        looked.with_posts(looked.posts.push(post)),
                        OutcomeView::Created(plain, post),
                    ),
                    Err(e) => (looked, OutcomeView::Failed(e)),
                },
            }
        },
    }
}

/// Creating a post comes to what [`created`] says.
pub proof fn lemma_create(
    db: &Database,
    world: Backend,
    slug: Text,
    content: Text,
    password: Text,
    ip: Text,
    fresh: FreshView,
)
    ensures
        run(db, world, db.create_post_step(slug, content, password, ip, fresh)) == created(
            db,
            world,
            slug,
            content,
            password,
            ip,
            fresh,
        ),
{
    reveal_with_fuel(run, 3);
    match normalized(slug) {
        Some(key) => {
            lemma_lookup(
                db,
                world,
                key,
                AfterView::Create { content, draft: DraftView { slug: key, password, ip, fresh } },
            );
        },
        None => {},
    }
}

/// What creating a post from a template comes to: the backend as the operation leaves it,
/// and the outcome.
///
/// The slug is normalized and looked up. Where a post is found, nothing is stored. Where
/// none is, the template is looked up; the new post has its content and names its slug.
pub open spec fn cloned(
    db: &Database,
    world: Backend,
    source: Text,
    slug: Text,
    password: Text,
    ip: Text,
    fresh: FreshView,
) -> (Backend, OutcomeView) {
    match normalized(slug) {
        None => (world, OutcomeView::Failed(DatabaseError::ValueError)),
        Some(key) => {
            let (looked, found) = resolve(db, world, key);
            match found {
                Ok(_) => (looked, OutcomeView::Failed(DatabaseError::AlreadyExists)),
                Err(_) => match normalized(source) {
                    None => (looked, OutcomeView::Failed(DatabaseError::ValueError)),
                    Some(source_key) => {
                        let (read, template) = resolve(db, looked, source_key);
                        match template {
                            Err(e) => (read, OutcomeView::Failed(e)),
                            Ok(template) => match (DraftView {
                                slug: key,
                                password,
                                ip,
                                fresh,
                            }).post(
                                template.content,
                                PostContextView::derived(template.slug),
                                false,
                            ) {
                                Ok((plain, post)) => (
                                    read.with_posts(read.posts.push(post)),
                                    OutcomeView::Created(plain, post),
                                ),
                                Err(e) => (read, OutcomeView::Failed(e)),
                            },
                        }
                    },
                },
            }
        },
    }
}

/// Creating a post from a template comes to what [`cloned`] says.
pub proof fn lemma_clone(
    db: &Database,
    world: Backend,
    source: Text,
    slug: Text,
    password: Text,
    ip: Text,
    fresh: FreshView,
)
    ensures
        run(db, world, db.clone_post_step(source, slug, password, ip, fresh)) == cloned(
            db,
            world,
            source,
            slug,
            password,
            ip,
            fresh,
        ),
{
    reveal_with_fuel(run, 3);
    match normalized(slug) {
        Some(key) => {
            let draft = DraftView { slug: key, password, ip, fresh };
            lemma_lookup(db, world, key, AfterView::CloneTarget { source, draft });
            let looked = resolve(db, world, key).0;
            match normalized(source) {
                Some(source_key) => {
                    lemma_lookup(db, looked, source_key, AfterView::CloneSource { draft });
                },
                None => {},
            }
        },
        None => {},
    }
}

/// What the cache counts as the views of a canonical slug: the counter under its key, or
/// zero where there is none.
pub open spec fn counted(db: &Database, world: Backend, key: Text) -> int {
    if world.cache.dom().contains(db.view_key(key)) {
        match world.cache[db.view_key(key)] {
            Cached::Count(count) => count,
            Cached::Post(_) => 0,
        }
    } else {
        0
    }
}

/// The views of a deleted post count as zero.
pub proof fn lemma_views_after_delete(db: &Database, world: Backend, slug: Text)
    ensures
        run(
            db,
            deleted(db, world, slug),
            StepView::Ask(
                RequestView::CachedCount { key: db.view_key(slug) },
                TaskView::Counting { slug },
            ),
        ).1 == OutcomeView::Views(0),
{
    reveal_with_fuel(run, 4);
    lemma_no_views_after_delete(world.views, slug);
    let after = deleted(db, world, slug);
    assert(after.cached_count(db.view_key(slug)) is None);
}

} // verus!

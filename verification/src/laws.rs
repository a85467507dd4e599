//! What holds of the operations of the engine, over a backend that answers every request
//! faithfully.
use crate::auth::{is_manager, IdentityView};
use crate::backend::{
    find, lemma_find_after_delete, lemma_find_after_insert, lemma_find_after_recontext,
    lemma_find_after_rename, lemma_find_after_rewrite, lemma_find_counts, lemma_find_has_slug,
    lemma_rows_after_delete, lemma_rows_after_insert, lemma_rows_after_recontext,
    lemma_rows_after_rewrite, rows_of, run, unique_slugs, with_context, Backend,
};
use crate::database::{
    appended, edit_of, prepared, AfterView, ChangeView, Database, DraftView, ReadyView,
};
use crate::model::{DatabaseError, PostContextView, PostView, Text, IP_LOG_LIMIT};
use crate::protocol::OutcomeView;
use crate::semantics::{
    actor_of, allowed, audit_of, audited, changed, cloned, coherent, coherent_cache, counted,
    created, deleted, lemma_change, lemma_clone, lemma_create, lemma_get_post, lemma_lookup,
    lemma_post_key_injective, lemma_views_after_delete, refusal, resolve, written,
};
use crate::slug::{
    law_normalize_idempotent, lemma_canonical_is_fixed, lemma_hex_is_valid_slug,
    lemma_key_of_nonempty_slug, lemma_normalized_is_canonical, normalized, valid_slug,
};
use crate::utility::{digest_of, FreshView};
use vstd::prelude::*;

verus! {

/// Create, then Get: a post that was created is what a read of its slug gives next. It has
/// the content that was supplied, no metadata, and one date for its publication and its
/// last edit; its slug is the normalized form of the one that was supplied, and a read of
/// that one gives the post too.
///
/// A post that was given no slug is created under the one that was drawn, without a look
/// whether that one is taken: for such a post the law holds where the drawn slug is free.
pub proof fn law_create_then_get(
    db: &Database,
    world: Backend,
    slug: Text,
    content: Text,
    password: Text,
    ip: Text,
    fresh: FreshView,
)
    requires
        run(db, world, db.create_post_step(slug, content, password, ip, fresh)).1 is Created,
        slug.len() == 0 ==> fresh.well_formed() && run(
            db,
            world,
            db.get_post_step(fresh.slug),
        ).1 is Failed,
    ensures
        ({
            let (after, outcome) = run(
                db,
                world,
                db.create_post_step(slug, content, password, ip, fresh),
            );
            let post = outcome->Created_1;
            &&& post.content == content
            &&& post.context == PostContextView::empty()
            &&& post.date_published == post.date_edited
            &&& run(db, after, db.get_post_step(post.slug)).1 == OutcomeView::Post(post)
            &&& slug.len() > 0 ==> Some(post.slug) == normalized(slug) && run(
                db,
                after,
                db.get_post_step(slug),
            ).1 == OutcomeView::Post(post)
        }),
{
    lemma_create(db, world, slug, content, password, ip, fresh);
    let key = normalized(slug).unwrap();
    let (after, outcome) = created(db, world, slug, content, password, ip, fresh);
    let post = outcome->Created_1;
    if slug.len() > 0 {
        lemma_key_of_nonempty_slug(slug);
    } else {
        assert(slug =~= Seq::<char>::empty());
        lemma_canonical_is_fixed(slug);
    }
    if key.len() == 0 {
        assert(key =~= Seq::<char>::empty());
        lemma_get_post(db, world, fresh.slug);
        assert forall|i: int| 0 <= i < fresh.slug.len() implies '\0' <= #[trigger] fresh.slug[i]
            <= '\u{7f}' && !('A' <= fresh.slug[i] <= 'Z') by {
            assert(crate::slug::is_hex_digit(fresh.slug[i]));
        }
        lemma_canonical_is_fixed(fresh.slug);
    } else {
        lemma_normalized_is_canonical(slug);
        lemma_canonical_is_fixed(key);
        lemma_get_post(db, after, slug);
    }
    lemma_find_after_insert(world.posts, post, post.slug);
    lemma_get_post(db, after, post.slug);
}

/// Creating a post under a slug that resolves to a live post fails with
/// [`DatabaseError::AlreadyExists`] and stores nothing, whatever the spelling: two slugs
/// with one canonical key are one slug.
pub proof fn law_create_existing_fails(
    db: &Database,
    world: Backend,
    slug: Text,
    other: Text,
    content: Text,
    password: Text,
    ip: Text,
    fresh: FreshView,
)
    requires
        normalized(slug) is Some,
        normalized(slug) == normalized(other),
        run(db, world, db.get_post_step(other)).1 is Post,
    ensures
        run(db, world, db.create_post_step(slug, content, password, ip, fresh)).1
            == OutcomeView::Failed(DatabaseError::AlreadyExists),
        run(db, world, db.create_post_step(slug, content, password, ip, fresh)).0.posts
            == world.posts,
{
    let key = normalized(slug).unwrap();
    lemma_get_post(db, world, other);
    lemma_lookup(
        db,
        world,
        key,
        AfterView::Create { content, draft: DraftView { slug: key, password, ip, fresh } },
    );
    reveal_with_fuel(run, 2);
}

/// Creating a post under a free slug fails with [`DatabaseError::ValueError`] where the
/// content has no character or more than 200000, and succeeds where it has 1 to 200000
/// and the slug is one that a post may be created under. A slug that is taken is reported
/// first.
pub proof fn law_create_checks_content(
    db: &Database,
    world: Backend,
    slug: Text,
    content: Text,
    password: Text,
    ip: Text,
    fresh: FreshView,
)
    requires
        normalized(slug) is Some,
        run(db, world, db.get_post_step(slug)).1 is Failed,
    ensures
        !(1 <= content.len() <= 200000) ==> run(
            db,
            world,
            db.create_post_step(slug, content, password, ip, fresh),
        ).1 == OutcomeView::Failed(DatabaseError::ValueError),
        1 <= content.len() <= 200000 && valid_slug(
            DraftView { slug: normalized(slug).unwrap(), password, ip, fresh }.final_slug(),
        ) ==> run(db, world, db.create_post_step(slug, content, password, ip, fresh)).1 is Created,
{
    lemma_get_post(db, world, slug);
    lemma_create(db, world, slug, content, password, ip, fresh);
}

/// Editing with a wrong password, and without a delegated identity, fails with
/// [`DatabaseError::PasswordIncorrect`] and leaves the stored posts as they were: a read of
/// the slug gives what it gave before.
pub proof fn law_edit_wrong_password(
    db: &Database,
    world: Backend,
    slug: Text,
    ip: Text,
    password: Text,
    new_content: Text,
    new_slug: Text,
    new_password: Text,
    now: u128,
)
    requires
        run(db, world, db.get_post_step(slug)).1 matches OutcomeView::Post(existing) && digest_of(
            password,
        ) != existing.password,
    ensures
        ({
            let (after, outcome) = run(
                db,
                world,
                db.edit_post_step(
                    slug,
                    ip,
                    password,
                    new_content,
                    new_slug,
                    new_password,
                    None,
                    now,
                ),
            );
            &&& outcome == OutcomeView::Failed(DatabaseError::PasswordIncorrect)
            &&& after.posts == world.posts
            &&& run(db, after, db.get_post_step(slug)).1 == run(
                db,
                world,
                db.get_post_step(slug),
            ).1
        }),
{
    let key = normalized(slug).unwrap();
    let change = ChangeView::Edit {
        ip,
        content: new_content,
        slug: new_slug,
        password: new_password,
        now,
    };
    lemma_get_post(db, world, slug);
    lemma_lookup(db, world, key, AfterView::Change { password, user: None, change });
    reveal_with_fuel(run, 2);
    let after = resolve(db, world, key).0;
    lemma_get_post(db, after, slug);
}

/// Editing under a delegated identity is decided by the permissions of its group alone,
/// whatever the password. Where the group holds the elevated capability, the edit is
/// checked and made as any allowed edit is, and exactly one entry is added to the audit
/// trail where it is made; an edit that fails its checks, or that would move the post to a
/// slug that is taken, adds none and stores nothing. Where the group does not hold the
/// capability, the edit fails with [`DatabaseError::NotAllowed`], and neither the audit
/// trail nor a stored post changes.
pub proof fn law_edit_delegated(
    db: &Database,
    world: Backend,
    slug: Text,
    ip: Text,
    password: Text,
    new_content: Text,
    new_slug: Text,
    new_password: Text,
    identity: IdentityView,
    now: u128,
)
    requires
        run(db, world, db.get_post_step(slug)).1 is Post,
    ensures
        ({
            let existing = run(db, world, db.get_post_step(slug)).1->Post_0;
            let (after, outcome) = run(
                db,
                world,
                db.edit_post_step(
                    slug,
                    ip,
                    password,
                    new_content,
                    new_slug,
                    new_password,
                    Some(identity),
                    now,
                ),
            );
            if is_manager(world.permissions(identity.group)) {
                &&& outcome == OutcomeView::Done || outcome is Failed
                &&& outcome == OutcomeView::Done ==> after.audit == world.audit.push(
                    (identity.id, "Edited a post: "@ + existing.slug),
                )
                &&& outcome is Failed ==> after.audit == world.audit && after.posts == world.posts
                &&& (1 <= new_content.len() <= 200000 && new_slug.len() == 0 && normalized(
                    existing.slug,
                ) == normalized(slug)) ==> outcome == OutcomeView::Done
            } else {
                &&& outcome == OutcomeView::Failed(DatabaseError::NotAllowed)
                &&& after.audit == world.audit
                &&& after.posts == world.posts
            }
        }),
{
    let change = ChangeView::Edit {
        ip,
        content: new_content,
        slug: new_slug,
        password: new_password,
        now,
    };
    lemma_get_post(db, world, slug);
    lemma_change(db, world, slug, password, Some(identity), change);
}

/// An origin log never grows beyond ten entries. The entry of an edit is its last; while
/// there is room nothing leaves, and from a full log the oldest entry leaves.
pub proof fn law_origin_log_keeps_ten(log: Seq<(u128, Text)>, entry: (u128, Text))
    ensures
        appended(log, entry).len() <= IP_LOG_LIMIT,
        appended(log, entry).last() == entry,
        log.len() < IP_LOG_LIMIT ==> appended(log, entry) == log.push(entry),
        log.len() == IP_LOG_LIMIT ==> appended(log, entry) == log.drop_first().push(entry),
{
    if log.len() == IP_LOG_LIMIT {
        assert(appended(log, entry) =~= log.drop_first().push(entry));
    }
}

/// Edit, then Get: after an edit with the right password that keeps the slug, a read of the
/// slug gives the post with the new content, the new password digest where a new password
/// was given, the time of the edit, and an origin log that has the entry of the edit and
/// at most ten entries. Its identifier, date of publication and metadata are what they
/// were.
pub proof fn law_edit_then_get(
    db: &Database,
    world: Backend,
    slug: Text,
    ip: Text,
    password: Text,
    new_content: Text,
    new_password: Text,
    now: u128,
)
    requires
        normalized(slug) matches Some(key) && coherent(db, world, key),
        1 <= new_content.len() <= 200000,
        run(db, world, db.get_post_step(slug)).1 matches OutcomeView::Post(existing) && digest_of(
            password,
        ) == existing.password,
    ensures
        ({
            let existing = run(db, world, db.get_post_step(slug)).1->Post_0;
            let (after, outcome) = run(
                db,
                world,
                db.edit_post_step(
                    slug,
                    ip,
                    password,
                    new_content,
                    Seq::empty(),
                    new_password,
                    None,
                    now,
                ),
            );
            &&& outcome == OutcomeView::Done
            &&& run(db, after, db.get_post_step(slug)).1 == OutcomeView::Post(
                PostView {
                    id: existing.id,
                    slug: existing.slug,
                    content: new_content,
                    password: if new_password.len() == 0 {
                        existing.password
                    } else {
                        digest_of(new_password)
                    },
                    date_published: existing.date_published,
                    date_edited: now,
                    context: existing.context,
                    ips: appended(existing.ips, (now, ip)),
                },
            )
            &&& appended(existing.ips, (now, ip)).len() <= IP_LOG_LIMIT
        }),
{
    let key = normalized(slug).unwrap();
    let change = ChangeView::Edit {
        ip,
        content: new_content,
        slug: Seq::empty(),
        password: new_password,
        now,
    };
    lemma_get_post(db, world, slug);
    lemma_change(db, world, slug, password, None, change);
    let (looked, found) = resolve(db, world, key);
    let existing = found->Ok_0;
    lemma_find_has_slug(world.posts, key);
    assert(existing.slug == key);
    lemma_normalized_is_canonical(slug);
    lemma_canonical_is_fixed(key);
    let edit = edit_of(
        existing,
        new_content,
        if new_password.len() == 0 {
            None
        } else {
            Some(digest_of(new_password))
        },
        key,
        now,
        ip,
    );
    let after = changed(db, world, slug, password, None, change).0;
    lemma_find_after_rewrite(world.posts, key, edit, key);
    lemma_get_post(db, after, slug);
    law_origin_log_keeps_ten(existing.ips, (now, ip));
}

/// Delete, then Get: once a post is deleted, a read of its slug fails with
/// [`DatabaseError::NotFound`], and its views count as zero, in either way of counting.
pub proof fn law_delete_then_get(
    db: &Database,
    world: Backend,
    slug: Text,
    password: Text,
    user: Option<IdentityView>,
)
    requires
        run(db, world, db.change_step(slug, password, user, ChangeView::Delete)).1
            == OutcomeView::Done,
    ensures
        ({
            let after = run(db, world, db.change_step(slug, password, user, ChangeView::Delete)).0;
            &&& run(db, after, db.get_post_step(slug)).1 == OutcomeView::Failed(
                DatabaseError::NotFound,
            )
            &&& run(db, after, db.get_views_step(slug)).1 == OutcomeView::Views(0)
        }),
{
    lemma_change(db, world, slug, password, user, ChangeView::Delete);
    let key = normalized(slug).unwrap();
    let (looked, found) = resolve(db, world, key);
    let existing = found->Ok_0;
    let gated = audited(
        looked,
        audit_of(existing, actor_of(user), ChangeView::Delete),
    );
    let after = deleted(db, gated, key);
    assert(run(db, world, db.change_step(slug, password, user, ChangeView::Delete)).0 == after);
    lemma_find_after_delete(gated.posts, key, key);
    lemma_get_post(db, after, slug);
    lemma_views_after_delete(db, gated, key);
}

/// Cloning into a free slug. Where the template cannot be found, the clone fails with the
/// error of that lookup. Where it can, and the slug is one that a post may be created
/// under, the new post has the content of the template, names the template's slug as its
/// template, and has no other metadata: none of the template's is inherited.
pub proof fn law_clone(
    db: &Database,
    world: Backend,
    source: Text,
    slug: Text,
    password: Text,
    ip: Text,
    fresh: FreshView,
)
    requires
        normalized(slug) is Some,
        run(db, world, db.get_post_step(slug)).1 is Failed,
    ensures
        ({
            let key = normalized(slug).unwrap();
            let outcome = run(db, world, db.clone_post_step(source, slug, password, ip, fresh)).1;
            match run(db, world, db.get_post_step(source)).1 {
                OutcomeView::Post(template) => if valid_slug(
                    DraftView { slug: key, password, ip, fresh }.final_slug(),
                ) {
                    &&& outcome is Created
                    &&& outcome->Created_1.content == template.content
                    &&& outcome->Created_1.context == PostContextView::derived(template.slug)
                    &&& outcome->Created_1.context.title.len() == 0
                    &&& coherent(db, world, normalized(source).unwrap())
                        ==> Some(outcome->Created_1.context.template) == normalized(source)
                } else {
                    outcome == OutcomeView::Failed(DatabaseError::ValueError)
                },
                other => outcome == other,
            }
        }),
{
    let key = normalized(slug).unwrap();
    let draft = DraftView { slug: key, password, ip, fresh };
    lemma_get_post(db, world, slug);
    lemma_get_post(db, world, source);
    lemma_lookup(db, world, key, AfterView::CloneTarget { source, draft });
    reveal_with_fuel(run, 3);
    match normalized(source) {
        Some(source_key) => {
            lemma_lookup(db, world, source_key, AfterView::CloneSource { draft });
            lemma_find_has_slug(world.posts, source_key);
        },
        None => {},
    }
}

/// Creating a post under a slug of its own keeps the slugs of the stored posts unique.
pub proof fn law_create_keeps_slugs_unique(
    db: &Database,
    world: Backend,
    slug: Text,
    content: Text,
    password: Text,
    ip: Text,
    fresh: FreshView,
)
    requires
        unique_slugs(world.posts),
        normalized(slug) matches Some(key) && key.len() > 0,
    ensures
        unique_slugs(
            run(db, world, db.create_post_step(slug, content, password, ip, fresh)).0.posts,
        ),
{
    lemma_create(db, world, slug, content, password, ip, fresh);
    let key = normalized(slug).unwrap();
    let after = created(db, world, slug, content, password, ip, fresh).0;
    if after.posts != world.posts {
        let post = after.posts.last();
        assert(after.posts == world.posts.push(post));
        lemma_find_counts(world.posts, key);
        assert forall|other: Text| #[trigger] rows_of(after.posts, other) <= 1 by {
            lemma_rows_after_insert(world.posts, post, other);
            assert(rows_of(world.posts, other) <= 1);
        }
    }
}

/// Creating a post from a template under a slug of its own keeps the slugs of the stored
/// posts unique.
pub proof fn law_clone_keeps_slugs_unique(
    db: &Database,
    world: Backend,
    source: Text,
    slug: Text,
    password: Text,
    ip: Text,
    fresh: FreshView,
)
    requires
        unique_slugs(world.posts),
        normalized(slug) matches Some(key) && key.len() > 0,
    ensures
        unique_slugs(
            run(db, world, db.clone_post_step(source, slug, password, ip, fresh)).0.posts,
        ),
{
    lemma_clone(db, world, source, slug, password, ip, fresh);
    let key = normalized(slug).unwrap();
    let after = cloned(db, world, source, slug, password, ip, fresh).0;
    if after.posts != world.posts {
        let post = after.posts.last();
        assert(after.posts == world.posts.push(post));
        lemma_find_counts(world.posts, key);
        assert forall|other: Text| #[trigger] rows_of(after.posts, other) <= 1 by {
            lemma_rows_after_insert(world.posts, post, other);
            assert(rows_of(world.posts, other) <= 1);
        }
    }
}

/// Deleting a post, editing it and replacing its metadata keep the slugs of the stored
/// posts unique: an edit that would give a post the slug of another is refused.
pub proof fn law_change_keeps_slugs_unique(
    db: &Database,
    world: Backend,
    slug: Text,
    password: Text,
    user: Option<IdentityView>,
    change: ChangeView,
)
    requires
        unique_slugs(world.posts),
    ensures
        unique_slugs(run(db, world, db.change_step(slug, password, user, change)).0.posts),
{
    lemma_change(db, world, slug, password, user, change);
    let after = changed(db, world, slug, password, user, change).0;
    if after.posts != world.posts {
        let key = normalized(slug).unwrap();
        let (looked, found) = resolve(db, world, key);
        let existing = found->Ok_0;
        let ready = prepared(existing, change)->Ok_0;
        assert forall|other: Text| #[trigger] rows_of(after.posts, other) <= 1 by {
            assert(rows_of(world.posts, other) <= 1);
            assert(rows_of(world.posts, key) <= 1);
            match ready {
                ReadyView::Delete => {
                    lemma_rows_after_delete(world.posts, key, other);
                },
                ReadyView::Edit { change: edit } => {
                    lemma_rows_after_rewrite(world.posts, key, edit, other);
                    if edit.slug != key {
                        lemma_find_counts(world.posts, edit.slug);
                    }
                },
                ReadyView::Context { context } => {
                    lemma_rows_after_recontext(world.posts, key, context, other);
                },
            }
        }
    }
}

/// A created post is stored under a canonical lookup key: its slug is its own normalized
/// form, whether it was supplied or drawn.
pub proof fn law_created_slug_is_canonical(
    db: &Database,
    world: Backend,
    slug: Text,
    content: Text,
    password: Text,
    ip: Text,
    fresh: FreshView,
)
    requires
        fresh.well_formed(),
        run(db, world, db.create_post_step(slug, content, password, ip, fresh)).1 is Created,
    ensures
        ({
            let post = run(
                db,
                world,
                db.create_post_step(slug, content, password, ip, fresh),
            ).1->Created_1;
            normalized(post.slug) == Some(post.slug)
        }),
{
    lemma_create(db, world, slug, content, password, ip, fresh);
    let key = normalized(slug).unwrap();
    if key.len() == 0 {
        assert forall|i: int| 0 <= i < fresh.slug.len() implies '\0' <= #[trigger] fresh.slug[i]
            <= '\u{7f}' && !('A' <= fresh.slug[i] <= 'Z') by {
            assert(crate::slug::is_hex_digit(fresh.slug[i]));
        }
        lemma_canonical_is_fixed(fresh.slug);
    } else {
        lemma_normalized_is_canonical(slug);
        lemma_canonical_is_fixed(key);
    }
}

/// EditContext, then Get: after the metadata of a post is replaced with the right
/// password, a read of the slug gives the post with the new metadata and nothing else
/// changed.
pub proof fn law_edit_context_then_get(
    db: &Database,
    world: Backend,
    slug: Text,
    password: Text,
    context: PostContextView,
)
    requires
        normalized(slug) matches Some(key) && coherent(db, world, key),
        run(db, world, db.get_post_step(slug)).1 matches OutcomeView::Post(existing) && digest_of(
            password,
        ) == existing.password,
    ensures
        ({
            let existing = run(db, world, db.get_post_step(slug)).1->Post_0;
            let (after, outcome) = run(
                db,
                world,
                db.change_step(slug, password, None, ChangeView::Context { context }),
            );
            &&& outcome == OutcomeView::Done
            &&& run(db, after, db.get_post_step(slug)).1 == OutcomeView::Post(
                with_context(existing, context),
            )
        }),
{
    let key = normalized(slug).unwrap();
    let change = ChangeView::Context { context };
    lemma_get_post(db, world, slug);
    lemma_change(db, world, slug, password, None, change);
    let after = changed(db, world, slug, password, None, change).0;
    lemma_find_after_recontext(world.posts, key, context, key);
    lemma_get_post(db, after, slug);
}

/// Edit with a new slug, then Get. An edit with the right password that would move a post
/// to a slug that resolves to a live post fails with [`DatabaseError::AlreadyExists`],
/// whatever the spelling of the new slug, and stores nothing. Where the new slug is free,
/// the edit is made: a read of the new slug gives the edited post, and a read of the old
/// one fails with [`DatabaseError::NotFound`].
pub proof fn law_rename_then_get(
    db: &Database,
    world: Backend,
    slug: Text,
    ip: Text,
    password: Text,
    new_content: Text,
    new_slug: Text,
    now: u128,
)
    requires
        normalized(slug) matches Some(key) && coherent(db, world, key),
        normalized(new_slug) matches Some(target) && new_slug.len() > 0 && valid_slug(target)
            && Some(target) != normalized(slug),
        1 <= new_content.len() <= 200000,
        run(db, world, db.get_post_step(slug)).1 matches OutcomeView::Post(existing) && digest_of(
            password,
        ) == existing.password,
    ensures
        ({
            let existing = run(db, world, db.get_post_step(slug)).1->Post_0;
            let (after, outcome) = run(
                db,
                world,
                db.edit_post_step(
                    slug,
                    ip,
                    password,
                    new_content,
                    new_slug,
                    Seq::empty(),
                    None,
                    now,
                ),
            );
            if run(db, world, db.get_post_step(new_slug)).1 is Post {
                &&& outcome == OutcomeView::Failed(DatabaseError::AlreadyExists)
                &&& after.posts == world.posts
            } else {
                &&& outcome == OutcomeView::Done
                &&& run(db, after, db.get_post_step(new_slug)).1 == OutcomeView::Post(
                    edit_of(
                        existing,
                        new_content,
                        None,
                        normalized(new_slug).unwrap(),
                        now,
                        ip,
                    ).apply(existing),
                )
                &&& run(db, after, db.get_post_step(slug)).1 == OutcomeView::Failed(
                    DatabaseError::NotFound,
                )
            }
        }),
{
    let key = normalized(slug).unwrap();
    let target = normalized(new_slug).unwrap();
    let change = ChangeView::Edit {
        ip,
        content: new_content,
        slug: new_slug,
        password: Seq::empty(),
        now,
    };
    lemma_get_post(db, world, slug);
    lemma_get_post(db, world, new_slug);
    lemma_change(db, world, slug, password, None, change);
    let (looked, found) = resolve(db, world, key);
    let existing = found->Ok_0;
    let edit = edit_of(existing, new_content, None, target, now, ip);
    lemma_post_key_injective(db, key, target);
    assert(resolve(db, looked, target).1 == resolve(db, world, target).1);
    let (after, outcome) = changed(db, world, slug, password, None, change);
    if resolve(db, world, target).1 is Err {
        lemma_find_counts(world.posts, target);
        lemma_find_after_rename(world.posts, key, edit, key);
        lemma_find_after_rename(world.posts, key, edit, target);
        lemma_get_post(db, after, slug);
        lemma_get_post(db, after, new_slug);
    }
}

/// An edit is checked before anything is written or recorded: where its content has no
/// character or more than 200000, where the slug that it is to write cannot be normalized,
/// or where its new slug is not one that a post may be stored under, it fails with
/// [`DatabaseError::ValueError`], and neither a stored post nor the audit trail changes.
/// The authorization gate comes first.
pub proof fn law_edit_is_checked(
    db: &Database,
    world: Backend,
    slug: Text,
    ip: Text,
    password: Text,
    new_content: Text,
    new_slug: Text,
    new_password: Text,
    user: Option<IdentityView>,
    now: u128,
)
    requires
        run(db, world, db.get_post_step(slug)).1 matches OutcomeView::Post(existing) && refusal(
            world,
            existing,
            password,
            user,
        ) is None,
        !(1 <= new_content.len() <= 200000) || (new_slug.len() > 0 && (normalized(new_slug)
            matches Some(target) ==> !valid_slug(target))),
    ensures
        ({
            let (after, outcome) = run(
                db,
                world,
                db.edit_post_step(
                    slug,
                    ip,
                    password,
                    new_content,
                    new_slug,
                    new_password,
                    user,
                    now,
                ),
            );
            &&& outcome == OutcomeView::Failed(DatabaseError::ValueError)
            &&& after.posts == world.posts
            &&& after.audit == world.audit
        }),
{
    let change = ChangeView::Edit {
        ip,
        content: new_content,
        slug: new_slug,
        password: new_password,
        now,
    };
    lemma_get_post(db, world, slug);
    lemma_change(db, world, slug, password, user, change);
}

/// Views in the cache: where views are counted in the cache alone, a count gives what the
/// cache has counted, and counting one more view of a slug raises that by one. Neither
/// touches the store.
pub proof fn law_view_is_counted(db: &Database, world: Backend, slug: Text)
    requires
        !db.durable(),
        normalized(slug) matches Some(key) && 0 <= counted(db, world, key) < i32::MAX
            && world.cached_post(db.view_key(key)) is None,
    ensures
        ({
            let key = normalized(slug).unwrap();
            let (after, outcome) = run(db, world, db.incr_views_step(slug));
            &&& run(db, world, db.get_views_step(slug)) == (
                world,
                OutcomeView::Views(counted(db, world, key) as i32),
            )
            &&& outcome == OutcomeView::Done
            &&& after.posts == world.posts
            &&& after.views == world.views
            &&& counted(db, after, key) == counted(db, world, key) + 1
            &&& run(db, after, db.get_views_step(slug)).1 == OutcomeView::Views(
                (counted(db, world, key) + 1) as i32,
            )
        }),
{
    reveal_with_fuel(run, 3);
}

/// A lookup leaves a cache that agrees with the store in agreement with it.
pub proof fn lemma_lookup_keeps_cache_coherent(db: &Database, world: Backend, key: Text)
    requires
        coherent_cache(db, world),
    ensures
        coherent_cache(db, resolve(db, world, key).0),
        resolve(db, world, key).0.posts == world.posts,
        resolve(db, world, key).1 matches Ok(post) ==> find(world.posts, key) == Some(post),
{
    let looked = resolve(db, world, key).0;
    assert(coherent(db, world, key));
    assert forall|slug: Text| #[trigger] coherent(db, looked, slug) by {
        assert(coherent(db, world, slug));
        lemma_post_key_injective(db, slug, key);
    }
}

/// Reading a post leaves the cache in agreement with the store.
pub proof fn law_get_keeps_cache_coherent(db: &Database, world: Backend, slug: Text)
    requires
        coherent_cache(db, world),
    ensures
        coherent_cache(db, run(db, world, db.get_post_step(slug)).0),
{
    lemma_get_post(db, world, slug);
    match normalized(slug) {
        Some(key) => {
            lemma_lookup_keeps_cache_coherent(db, world, key);
        },
        None => {},
    }
}

/// A new row leaves the cache in agreement with the store.
proof fn lemma_insert_keeps_cache_coherent(db: &Database, world: Backend, post: PostView)
    requires
        coherent_cache(db, world),
    ensures
        coherent_cache(db, world.with_posts(world.posts.push(post))),
{
    let after = world.with_posts(world.posts.push(post));
    assert forall|slug: Text| #[trigger] coherent(db, after, slug) by {
        assert(coherent(db, world, slug));
        lemma_find_after_insert(world.posts, post, slug);
    }
}

/// Creating a post leaves the cache in agreement with the store.
pub proof fn law_create_keeps_cache_coherent(
    db: &Database,
    world: Backend,
    slug: Text,
    content: Text,
    password: Text,
    ip: Text,
    fresh: FreshView,
)
    requires
        coherent_cache(db, world),
    ensures
        coherent_cache(
            db,
            run(db, world, db.create_post_step(slug, content, password, ip, fresh)).0,
        ),
{
    lemma_create(db, world, slug, content, password, ip, fresh);
    match normalized(slug) {
        Some(key) => {
            lemma_lookup_keeps_cache_coherent(db, world, key);
            let looked = resolve(db, world, key).0;
            let after = created(db, world, slug, content, password, ip, fresh).0;
            if after != looked {
                lemma_insert_keeps_cache_coherent(db, looked, after.posts.last());
            }
        },
        None => {},
    }
}

/// Creating a post from a template leaves the cache in agreement with the store.
pub proof fn law_clone_keeps_cache_coherent(
    db: &Database,
    world: Backend,
    source: Text,
    slug: Text,
    password: Text,
    ip: Text,
    fresh: FreshView,
)
    requires
        coherent_cache(db, world),
    ensures
        coherent_cache(
            db,
            run(db, world, db.clone_post_step(source, slug, password, ip, fresh)).0,
        ),
{
    lemma_clone(db, world, source, slug, password, ip, fresh);
    match normalized(slug) {
        Some(key) => {
            lemma_lookup_keeps_cache_coherent(db, world, key);
            let looked = resolve(db, world, key).0;
            match normalized(source) {
                Some(source_key) => {
                    lemma_lookup_keeps_cache_coherent(db, looked, source_key);
                    let read = resolve(db, looked, source_key).0;
                    let after = cloned(db, world, source, slug, password, ip, fresh).0;
                    if after != looked && after != read {
                        lemma_insert_keeps_cache_coherent(db, read, after.posts.last());
                    }
                },
                None => {},
            }
        },
        None => {},
    }
}

/// Writing a checked change leaves the cache in agreement with the store, where it does
/// not give the post the slug of another.
proof fn lemma_write_keeps_cache_coherent(
    db: &Database,
    world: Backend,
    key: Text,
    ready: ReadyView,
)
    requires
        coherent_cache(db, world),
        ready matches ReadyView::Edit { change } ==> change.slug == key || rows_of(
            world.posts,
            change.slug,
        ) == 0,
    ensures
        coherent_cache(db, written(db, world, key, ready)),
{
    let after = written(db, world, key, ready);
    assert forall|slug: Text| #[trigger] coherent(db, after, slug) by {
        assert(coherent(db, world, slug));
        lemma_post_key_injective(db, slug, key);
        match ready {
            ReadyView::Delete => {
                lemma_find_after_delete(world.posts, key, slug);
            },
            ReadyView::Edit { change } => {
                if change.slug == key {
                    lemma_find_after_rewrite(world.posts, key, change, slug);
                } else {
                    lemma_find_after_rename(world.posts, key, change, slug);
                    lemma_find_counts(world.posts, change.slug);
                }
            },
            ReadyView::Context { context } => {
                lemma_find_after_recontext(world.posts, key, context, slug);
            },
        }
    }
}

/// An entry in the audit trail leaves the cache in agreement with the store.
proof fn lemma_audit_keeps_cache_coherent(
    db: &Database,
    world: Backend,
    audit: Option<(Text, Text)>,
)
    requires
        coherent_cache(db, world),
    ensures
        coherent_cache(db, audited(world, audit)),
        audited(world, audit).posts == world.posts,
{
    assert forall|slug: Text| #[trigger] coherent(db, audited(world, audit), slug) by {
        assert(coherent(db, world, slug));
    }
}

/// Deleting a post, editing it and replacing its metadata leave the cache in agreement
/// with the store.
pub proof fn law_change_keeps_cache_coherent(
    db: &Database,
    world: Backend,
    slug: Text,
    password: Text,
    user: Option<IdentityView>,
    change: ChangeView,
)
    requires
        coherent_cache(db, world),
    ensures
        coherent_cache(db, run(db, world, db.change_step(slug, password, user, change)).0),
{
    lemma_change(db, world, slug, password, user, change);
    match normalized(slug) {
        Some(key) => {
            lemma_lookup_keeps_cache_coherent(db, world, key);
            let (looked, found) = resolve(db, world, key);
            match found {
                Ok(existing) => {
                    if refusal(looked, existing, password, user) is None {
                        let audit = audit_of(existing, actor_of(user), change);
                        match prepared(existing, change) {
                            Ok(ReadyView::Edit { change: edit }) => {
                                let ready = ReadyView::Edit { change: edit };
                                if edit.slug == key {
                                    lemma_audit_keeps_cache_coherent(db, looked, audit);
                                    lemma_write_keeps_cache_coherent(
                                        db,
                                        audited(looked, audit),
                                        key,
                                        ready,
                                    );
                                } else {
                                    lemma_lookup_keeps_cache_coherent(db, looked, edit.slug);
                                    let (read, taken) = resolve(db, looked, edit.slug);
                                    if taken is Err {
                                        lemma_find_counts(looked.posts, edit.slug);
                                        lemma_audit_keeps_cache_coherent(db, read, audit);
                                        lemma_write_keeps_cache_coherent(
                                            db,
                                            audited(read, audit),
                                            key,
                                            ready,
                                        );
                                    }
                                }
                            },
                            Ok(ready) => {
                                lemma_audit_keeps_cache_coherent(db, looked, audit);
                                lemma_write_keeps_cache_coherent(
                                    db,
                                    audited(looked, audit),
                                    key,
                                    ready,
                                );
                            },
                            Err(_) => {},
                        }
                    }
                },
                Err(_) => {},
            }
        },
        None => {},
    }
}

/// Counting views, and counting one more, leave the cache in agreement with the store.
pub proof fn law_views_keep_cache_coherent(db: &Database, world: Backend, slug: Text)
    requires
        coherent_cache(db, world),
    ensures
        coherent_cache(db, run(db, world, db.get_views_step(slug)).0),
        coherent_cache(db, run(db, world, db.incr_views_step(slug)).0),
{
    reveal_with_fuel(run, 4);
    let counted = run(db, world, db.get_views_step(slug)).0;
    let raised = run(db, world, db.incr_views_step(slug)).0;
    assert forall|other: Text| #[trigger] coherent(db, counted, other) by {
        assert(coherent(db, world, other));
    }
    assert forall|other: Text| #[trigger] coherent(db, raised, other) by {
        assert(coherent(db, world, other));
    }
}

/// Creating a post without a slug: where the empty slug resolves to no post and the content
/// is one that a post may be created with, the post is created under the slug that was
/// drawn, of ten characters; and where no password is given either, the caller gets the
/// password that was drawn, of ten characters too.
pub proof fn law_create_draws_what_is_missing(
    db: &Database,
    world: Backend,
    content: Text,
    password: Text,
    ip: Text,
    fresh: FreshView,
)
    requires
        fresh.well_formed(),
        run(db, world, db.get_post_step(Seq::empty())).1 is Failed,
        1 <= content.len() <= 200000,
    ensures
        ({
            let outcome = run(
                db,
                world,
                db.create_post_step(Seq::empty(), content, password, ip, fresh),
            ).1;
            &&& outcome is Created
            &&& outcome->Created_1.slug == fresh.slug
            &&& outcome->Created_1.slug.len() == 10
            &&& outcome->Created_1.password == digest_of(outcome->Created_0)
            &&& outcome->Created_0 == (if password.len() == 0 {
                fresh.password
            } else {
                password
            })
            &&& password.len() == 0 ==> outcome->Created_0.len() == 10
        }),
{
    let empty = Seq::<char>::empty();
    assert(normalized(empty) == Some(empty)) by {
        lemma_canonical_is_fixed(empty);
    }
    lemma_get_post(db, world, empty);
    lemma_create(db, world, empty, content, password, ip, fresh);
    lemma_hex_is_valid_slug(fresh.slug);
}

/// A change under a delegated identity, whatever the change: the password plays no part.
/// Where the group of the identity holds the elevated capability, the change is checked
/// and made as any allowed change is, and where it is made, exactly one entry is added to
/// the audit trail, which names the actor and says what was done to which post; a change
/// that is not made adds none. Where the group does not hold the capability, the change
/// fails with [`DatabaseError::NotAllowed`] and nothing but the cache is touched.
pub proof fn law_change_delegated(
    db: &Database,
    world: Backend,
    slug: Text,
    password: Text,
    other_password: Text,
    identity: IdentityView,
    change: ChangeView,
)
    requires
        run(db, world, db.get_post_step(slug)).1 is Post,
    ensures
        run(db, world, db.change_step(slug, password, Some(identity), change)) == run(
            db,
            world,
            db.change_step(slug, other_password, Some(identity), change),
        ),
        ({
            let key = normalized(slug).unwrap();
            let (looked, found) = resolve(db, world, key);
            let existing = found->Ok_0;
            let (after, outcome) = run(
                db,
                world,
                db.change_step(slug, password, Some(identity), change),
            );
            if is_manager(world.permissions(identity.group)) {
                &&& (after, outcome) == allowed(
                    db,
                    looked,
                    existing,
                    key,
                    Some(identity.id),
                    change,
                )
                &&& outcome == OutcomeView::Done || outcome is Failed
                &&& outcome == OutcomeView::Done ==> after.audit == world.audit.push(
                    (identity.id, change.audit_message(existing.slug)),
                )
                &&& outcome is Failed ==> after.audit == world.audit && after.posts == world.posts
            } else {
                &&& outcome == OutcomeView::Failed(DatabaseError::NotAllowed)
                &&& after == looked
                &&& after.posts == world.posts
                &&& after.audit == world.audit
            }
        }),
{
    lemma_get_post(db, world, slug);
    lemma_change(db, world, slug, password, Some(identity), change);
    lemma_change(db, world, slug, other_password, Some(identity), change);
}

/// Views in the store: where views are counted by a durable log and the cache holds no
/// counter of a slug, a count gives the number of rows of the slug in the log, and leaves
/// that number in the cache.
pub proof fn law_durable_views_are_counted(db: &Database, world: Backend, slug: Text)
    requires
        db.durable(),
        normalized(slug) matches Some(key) && !world.cache.dom().contains(db.view_key(key))
            && crate::backend::count_views(world.views, key) <= i32::MAX,
    ensures
        ({
            let key = normalized(slug).unwrap();
            let rows = crate::backend::count_views(world.views, key);
            let (after, outcome) = run(db, world, db.get_views_step(slug));
            &&& outcome == OutcomeView::Views(rows as i32)
            &&& after.posts == world.posts
            &&& after.views == world.views
            &&& counted(db, after, key) == rows
        }),
{
    reveal_with_fuel(run, 4);
}

/// Whether a viewer has viewed a post is read from the durable view log, and is never the
/// case where views are counted in the cache alone. The backend stays as it is.
pub proof fn law_viewed(db: &Database, world: Backend, slug: Text, id: Text)
    ensures
        run(db, world, db.viewed_step(slug, id)) == (
            world,
            OutcomeView::Viewed(db.durable() && world.views.contains((slug, id))),
        ),
{
    reveal_with_fuel(run, 2);
}

/// Setting the store up ends well and leaves the posts, the view log and the cache as they
/// are.
pub proof fn law_init(db: &Database, world: Backend)
    ensures
        run(db, world, db.init_step()) == (world, OutcomeView::Done),
{
    reveal_with_fuel(run, 3);
}

/// A read by the canonical lookup key of a slug is the read by the slug: both take the
/// same first step, and so come to the same end over any backend.
pub proof fn law_get_by_key(db: &Database, slug: Text)
    requires
        normalized(slug) is Some,
    ensures
        db.get_post_step(normalized(slug).unwrap()) == db.get_post_step(slug),
{
    law_normalize_idempotent(slug);
}

} // verus!

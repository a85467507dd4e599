use std::collections::HashMap;

use beambin_core::auth::{Identity, Permission};
use beambin_core::config::Config;
use beambin_core::database::{Database, Step, Task};
use beambin_core::model::{
    ClonePost, CreatePost, DatabaseError, Post, PostContext, ViewMode,
};
use beambin_core::protocol::{Outcome, Reply, Request, Row};
use beambin_core::utility::Fresh;

#[derive(Debug, Clone)]
enum Entry {
    Post(Post),
    Count(i64),
}

/// A store, a cache and an identity service in memory. They answer every request
/// faithfully, unless told to fail.
struct Memory {
    posts: Vec<Post>,
    views: Vec<(String, String)>,
    cache: HashMap<String, Entry>,
    groups: HashMap<i32, Vec<Permission>>,
    audit: Vec<(String, String)>,
    asked: Vec<Request>,
    store_fails: bool,
    audit_fails: bool,
}

impl Memory {
    fn new() -> Memory {
        Memory {
            posts: Vec::new(),
            views: Vec::new(),
            cache: HashMap::new(),
            groups: HashMap::new(),
            audit: Vec::new(),
            asked: Vec::new(),
            store_fails: false,
            audit_fails: false,
        }
    }

    fn answer(&mut self, request: &Request) -> Reply {
        match request {
            Request::CachedPost { key } => match self.cache.get(key) {
                Some(Entry::Post(post)) => Reply::Post(Some(post.clone())),
                _ => Reply::Post(None),
            },
            Request::CachePost { key, post } => {
                self.cache.insert(key.clone(), Entry::Post(post.clone()));
                Reply::Done(true)
            }
            Request::CachedCount { key } => match self.cache.get(key) {
                Some(Entry::Count(count)) => Reply::Count(Some(*count as i32)),
                _ => Reply::Count(None),
            },
            Request::CacheCount { key, count } => {
                self.cache.insert(key.clone(), Entry::Count(*count as i64));
                Reply::Done(true)
            }
            Request::Forget { key } => {
                self.cache.remove(key);
                Reply::Done(true)
            }
            Request::Increment { key } => match self.cache.get(key).cloned() {
                None => {
                    self.cache.insert(key.clone(), Entry::Count(1));
                    Reply::Done(true)
                }
                Some(Entry::Count(count)) => {
                    self.cache.insert(key.clone(), Entry::Count(count + 1));
                    Reply::Done(true)
                }
                Some(Entry::Post(_)) => Reply::Done(false),
            },
            Request::FetchPost { slug, .. } => {
                if self.store_fails {
                    return Reply::Row(None);
                }
                match self.posts.iter().find(|post| &post.slug == slug) {
                    Some(post) => Reply::Row(Some(Row {
                        id: post.id.clone(),
                        slug: post.slug.clone(),
                        password: post.password.clone(),
                        content: post.content.clone(),
                        date_published: post.date_published,
                        date_edited: post.date_edited,
                        context: Some(post.context.clone()),
                        ips: Some(post.ips.clone()),
                    })),
                    None => Reply::Row(None),
                }
            }
            Request::InsertPost { post, .. } => {
                if self.store_fails {
                    return Reply::Done(false);
                }
                self.posts.push(post.clone());
                Reply::Done(true)
            }
            Request::UpdatePost { change, slug, .. } => {
                if self.store_fails {
                    return Reply::Done(false);
                }
                for post in self.posts.iter_mut() {
                    if &post.slug == slug {
                        post.content = change.content.clone();
                        post.password = change.password.clone();
                        post.slug = change.slug.clone();
                        post.date_edited = change.date_edited;
                        post.ips = change.ips.clone();
                    }
                }
                Reply::Done(true)
            }
            Request::UpdateContext { context, slug, .. } => {
                if self.store_fails {
                    return Reply::Done(false);
                }
                for post in self.posts.iter_mut() {
                    if &post.slug == slug {
                        post.context = context.clone();
                    }
                }
                Reply::Done(true)
            }
            Request::DeletePost { slug, .. } => {
                if self.store_fails {
                    return Reply::Done(false);
                }
                self.posts.retain(|post| &post.slug != slug);
                Reply::Done(true)
            }
            Request::CountViews { slug, .. } => {
                Reply::Total(Some(self.views.iter().filter(|view| &view.0 == slug).count()))
            }
            Request::FetchView { slug, id, .. } => {
                Reply::Done(self.views.iter().any(|view| &view.0 == slug && &view.1 == id))
            }
            Request::DeleteViews { slug, .. } => {
                self.views.retain(|view| &view.0 != slug);
                Reply::Done(true)
            }
            Request::CreateTable { .. } => Reply::Done(true),
            Request::Permissions { group } => {
                Reply::Permissions(Some(self.groups.get(group).cloned().unwrap_or_default()))
            }
            Request::Audit { actor, message } => {
                if self.audit_fails {
                    return Reply::Done(false);
                }
                self.audit.push((actor.clone(), message.clone()));
                Reply::Done(true)
            }
        }
    }

    fn run(&mut self, db: &Database, first: Step) -> Outcome {
        let mut step = first;
        loop {
            match step {
                Step::Done(outcome) => return outcome,
                Step::Ask(request, task) => {
                    let reply = self.answer(&request);
                    self.asked.push(request);
                    step = db.resume(task, reply);
                }
            }
        }
    }
}

fn engine() -> Database {
    Database::new("sqlite", Config::default())
}

fn durable_engine() -> Database {
    let mut config = Config::default();
    config.view_mode = ViewMode::AuthenticatedOnce;
    Database::new("postgres", config)
}

fn create(db: &Database, memory: &mut Memory, slug: &str, content: &str, password: &str) -> Outcome {
    let props = CreatePost {
        slug: slug.to_string(),
        content: content.to_string(),
        password: password.to_string(),
    };
    memory.run(db, db.create_post(props, "10.0.0.1".to_string()))
}

fn get(db: &Database, memory: &mut Memory, slug: &str) -> Outcome {
    memory.run(db, db.get_post(slug.to_string()))
}

fn edit(
    db: &Database,
    memory: &mut Memory,
    slug: &str,
    ip: &str,
    password: &str,
    content: &str,
    user: Option<Identity>,
) -> Outcome {
    memory.run(
        db,
        db.edit_post(
            slug.to_string(),
            ip.to_string(),
            password.to_string(),
            content.to_string(),
            String::new(),
            String::new(),
            user,
        ),
    )
}

fn post_of(outcome: Outcome) -> Post {
    match outcome {
        Outcome::Post(post) => post,
        Outcome::Created(_, post) => post,
        other => panic!("no post: {:?}", other),
    }
}

fn manager() -> Identity {
    Identity { id: "moderator".to_string(), group: 7 }
}

fn helper() -> Identity {
    Identity { id: "helper".to_string(), group: 3 }
}

fn with_groups(memory: &mut Memory) {
    memory.groups.insert(7, vec![Permission::Helper, Permission::Manager]);
    memory.groups.insert(3, vec![Permission::Helper]);
}

#[test]
fn create_then_get_returns_what_was_supplied() {
    let db = engine();
    let mut memory = Memory::new();
    let created = create(&db, &mut memory, "Notes", "first words", "secret");
    let (password, post) = match created {
        Outcome::Created(password, post) => (password, post),
        other => panic!("{:?}", other),
    };
    assert_eq!(password, "secret");
    assert_eq!(post.slug, "notes");
    assert_eq!(post.content, "first words");
    assert_eq!(post.context, PostContext::default());
    assert_eq!(post.date_published, post.date_edited);
    assert_eq!(post.ips.len(), 1);
    assert_eq!(post.ips[0].1, "10.0.0.1");
    assert_eq!(post.ips[0].0, post.date_published);
    assert_eq!(post.id.len(), 64);
    assert_ne!(post.password, "secret");
    let read = post_of(get(&db, &mut memory, "Notes"));
    assert_eq!(read, post);
    let again = post_of(get(&db, &mut memory, "notes"));
    assert_eq!(again, post);
}

#[test]
fn create_scenario_with_generated_password() {
    let db = engine();
    let mut memory = Memory::new();
    let created = create(&db, &mut memory, "My-Paste!", "hello", "");
    let (password, post) = match created {
        Outcome::Created(password, post) => (password, post),
        other => panic!("{:?}", other),
    };
    assert_eq!(password.chars().count(), 10);
    assert!(password.chars().all(|c| c.is_ascii_hexdigit()));
    assert_eq!(post.slug, "my-paste!");
    let read = post_of(get(&db, &mut memory, "my-paste!"));
    assert_eq!(read.content, "hello");
}

#[test]
fn create_rejects_a_slug_with_a_space() {
    let db = engine();
    let mut memory = Memory::new();
    let created = create(&db, &mut memory, "My Paste!", "hello", "");
    assert_eq!(created, Outcome::Failed(DatabaseError::ValueError));
    assert!(memory.posts.is_empty());
}

#[test]
fn create_with_empty_slug_generates_one() {
    let db = engine();
    let mut memory = Memory::new();
    let post = post_of(create(&db, &mut memory, "", "body", "pw"));
    assert_eq!(post.slug.chars().count(), 10);
    assert!(post.slug.chars().all(|c| c.is_ascii_hexdigit()));
    let read = post_of(get(&db, &mut memory, &post.slug));
    assert_eq!(read, post);
}

#[test]
fn create_existing_slug_fails_whatever_the_case() {
    let db = engine();
    let mut memory = Memory::new();
    create(&db, &mut memory, "report", "one", "pw");
    assert_eq!(
        create(&db, &mut memory, "REPORT", "two", "pw"),
        Outcome::Failed(DatabaseError::AlreadyExists)
    );
    assert_eq!(
        create(&db, &mut memory, "Report", "three", "other"),
        Outcome::Failed(DatabaseError::AlreadyExists)
    );
    assert_eq!(memory.posts.len(), 1);
    assert_eq!(memory.posts[0].content, "one");
}

#[test]
fn create_existing_unicode_slug_fails() {
    let db = engine();
    let mut memory = Memory::new();
    let post = post_of(create(&db, &mut memory, "bücher", "one", "pw"));
    assert_eq!(post.slug, "bcher-kva");
    assert_eq!(
        create(&db, &mut memory, "bcher-kva", "two", "pw"),
        Outcome::Failed(DatabaseError::AlreadyExists)
    );
}

#[test]
fn create_checks_content_length() {
    let db = engine();
    let mut memory = Memory::new();
    assert_eq!(
        create(&db, &mut memory, "empty", "", "pw"),
        Outcome::Failed(DatabaseError::ValueError)
    );
    let long = "a".repeat(200_001);
    assert_eq!(
        create(&db, &mut memory, "long", &long, "pw"),
        Outcome::Failed(DatabaseError::ValueError)
    );
    assert!(memory.posts.is_empty());
    assert!(matches!(create(&db, &mut memory, "one", "a", "pw"), Outcome::Created(..)));
    let full = "a".repeat(200_000);
    assert!(matches!(create(&db, &mut memory, "full", &full, "pw"), Outcome::Created(..)));
    assert_eq!(memory.posts.len(), 2);
}

#[test]
fn create_counts_characters_not_bytes() {
    let db = engine();
    let mut memory = Memory::new();
    let wide = "é".repeat(200_000);
    assert!(matches!(create(&db, &mut memory, "wide", &wide, "pw"), Outcome::Created(..)));
}

#[test]
fn create_checks_slug_length() {
    let db = engine();
    let mut memory = Memory::new();
    assert_eq!(
        create(&db, &mut memory, "ab", "body", "pw"),
        Outcome::Failed(DatabaseError::ValueError)
    );
    assert!(matches!(create(&db, &mut memory, "abc", "body", "pw"), Outcome::Created(..)));
    let longest = "s".repeat(250);
    assert!(matches!(create(&db, &mut memory, &longest, "body", "pw"), Outcome::Created(..)));
    let too_long = "s".repeat(251);
    assert_eq!(
        create(&db, &mut memory, &too_long, "body", "pw"),
        Outcome::Failed(DatabaseError::ValueError)
    );
}

#[test]
fn create_with_given_values_builds_exactly_that_post() {
    let db = engine();
    let mut memory = Memory::new();
    let fresh = Fresh {
        id: "f".repeat(64),
        slug: "0123456789".to_string(),
        password: "abcdefabcd".to_string(),
        now: 1_700_000_000_000,
    };
    let props = CreatePost {
        slug: String::new(),
        content: "body".to_string(),
        password: String::new(),
    };
    let outcome = memory.run(&db, db.create_post_with(props, "1.2.3.4".to_string(), fresh));
    let (password, post) = match outcome {
        Outcome::Created(password, post) => (password, post),
        other => panic!("{:?}", other),
    };
    assert_eq!(password, "abcdefabcd");
    assert_eq!(post.id, "f".repeat(64));
    assert_eq!(post.slug, "0123456789");
    assert_eq!(post.date_published, 1_700_000_000_000);
    assert_eq!(post.date_edited, 1_700_000_000_000);
    assert_eq!(post.ips, vec![(1_700_000_000_000u128, "1.2.3.4".to_string())]);
    assert_eq!(
        post.password,
        "23d4f5751fad8e8a807fd101105b150b495ad1ba91eef58e05468ced87267cfe"
    );
}

#[test]
fn store_failure_on_create_is_other() {
    let db = engine();
    let mut memory = Memory::new();
    memory.store_fails = true;
    assert_eq!(
        create(&db, &mut memory, "fails", "body", "pw"),
        Outcome::Failed(DatabaseError::Other)
    );
}

#[test]
fn unwritable_value_on_create_is_value_error() {
    let db = engine();
    let props = CreatePost {
        slug: "plain".to_string(),
        content: "body".to_string(),
        password: "pw".to_string(),
    };
    let mut step = db.create_post(props, String::new());
    let mut memory = Memory::new();
    loop {
        match step {
            Step::Ask(Request::InsertPost { .. }, task) => {
                step = db.resume(task, Reply::Invalid);
            }
            Step::Ask(request, task) => {
                let reply = memory.answer(&request);
                step = db.resume(task, reply);
            }
            Step::Done(outcome) => {
                assert_eq!(outcome, Outcome::Failed(DatabaseError::ValueError));
                break;
            }
        }
    }
}

#[test]
fn get_missing_post_is_not_found() {
    let db = engine();
    let mut memory = Memory::new();
    assert_eq!(get(&db, &mut memory, "nothing"), Outcome::Failed(DatabaseError::NotFound));
}

#[test]
fn get_reads_through_the_cache() {
    let db = engine();
    let mut memory = Memory::new();
    let post = post_of(create(&db, &mut memory, "cached", "body", "pw"));
    assert!(memory.cache.is_empty());
    memory.asked.clear();
    assert_eq!(post_of(get(&db, &mut memory, "cached")), post);
    assert_eq!(memory.asked.len(), 3);
    assert_eq!(memory.asked[0], Request::CachedPost { key: "pb.post:cached".to_string() });
    assert_eq!(
        memory.asked[1],
        Request::FetchPost {
            query: "SELECT * FROM \"posts\" WHERE \"slug\" = ?".to_string(),
            slug: "cached".to_string(),
        }
    );
    assert_eq!(
        memory.asked[2],
        Request::CachePost { key: "pb.post:cached".to_string(), post: post.clone() }
    );
    memory.asked.clear();
    assert_eq!(post_of(get(&db, &mut memory, "cached")), post);
    assert_eq!(memory.asked, vec![Request::CachedPost { key: "pb.post:cached".to_string() }]);
}

#[test]
fn get_malformed_row_is_value_error() {
    let db = engine();
    let step = db.get_post("broken".to_string());
    let task = match step {
        Step::Ask(Request::CachedPost { .. }, task) => task,
        other => panic!("{:?}", other),
    };
    let task = match db.resume(task, Reply::Post(None)) {
        Step::Ask(Request::FetchPost { .. }, task) => task,
        other => panic!("{:?}", other),
    };
    let row = Row {
        id: "id".to_string(),
        slug: "broken".to_string(),
        password: "digest".to_string(),
        content: "body".to_string(),
        date_published: 1,
        date_edited: 2,
        context: None,
        ips: Some(Vec::new()),
    };
    assert_eq!(
        db.resume(task, Reply::Row(Some(row))),
        Step::Done(Outcome::Failed(DatabaseError::ValueError))
    );
}

#[test]
fn edit_with_wrong_password_changes_nothing() {
    let db = engine();
    let mut memory = Memory::new();
    let post = post_of(create(&db, &mut memory, "guarded", "body", "right"));
    assert_eq!(
        edit(&db, &mut memory, "guarded", "6.6.6.6", "wrong", "defaced", None),
        Outcome::Failed(DatabaseError::PasswordIncorrect)
    );
    assert_eq!(memory.posts, vec![post.clone()]);
    assert_eq!(post_of(get(&db, &mut memory, "guarded")), post);
}

#[test]
fn edit_with_right_password_rewrites_the_post() {
    let db = engine();
    let mut memory = Memory::new();
    let post = post_of(create(&db, &mut memory, "living", "body", "right"));
    get(&db, &mut memory, "living");
    assert_eq!(edit(&db, &mut memory, "Living", "2.2.2.2", "right", "new body", None), Outcome::Done);
    assert!(!memory.cache.contains_key("pb.post:living"));
    let read = post_of(get(&db, &mut memory, "living"));
    assert_eq!(read.content, "new body");
    assert_eq!(read.id, post.id);
    assert_eq!(read.slug, "living");
    assert_eq!(read.password, post.password);
    assert_eq!(read.date_published, post.date_published);
    assert!(read.date_edited >= post.date_edited);
    assert_eq!(read.ips.len(), 2);
    assert_eq!(read.ips[0], post.ips[0]);
    assert_eq!(read.ips[1].1, "2.2.2.2");
}

#[test]
fn edit_can_change_slug_and_password() {
    let db = engine();
    let mut memory = Memory::new();
    create(&db, &mut memory, "before", "body", "old");
    let outcome = memory.run(
        &db,
        db.edit_post_at(
            "before".to_string(),
            "3.3.3.3".to_string(),
            "old".to_string(),
            "body".to_string(),
            "After".to_string(),
            "new".to_string(),
            None,
            42,
        ),
    );
    assert_eq!(outcome, Outcome::Done);
    assert_eq!(get(&db, &mut memory, "before"), Outcome::Failed(DatabaseError::NotFound));
    let moved = post_of(get(&db, &mut memory, "after"));
    assert_eq!(moved.date_edited, 42);
    assert_eq!(
        edit(&db, &mut memory, "after", "", "old", "x", None),
        Outcome::Failed(DatabaseError::PasswordIncorrect)
    );
    assert_eq!(edit(&db, &mut memory, "after", "", "new", "x", None), Outcome::Done);
}

#[test]
fn edit_missing_post_is_not_found() {
    let db = engine();
    let mut memory = Memory::new();
    assert_eq!(
        edit(&db, &mut memory, "nothing", "", "pw", "x", None),
        Outcome::Failed(DatabaseError::NotFound)
    );
}

#[test]
fn edit_by_manager_needs_no_password_and_is_audited_once() {
    let db = engine();
    let mut memory = Memory::new();
    with_groups(&mut memory);
    create(&db, &mut memory, "moderated", "body", "right");
    assert_eq!(
        edit(&db, &mut memory, "moderated", "4.4.4.4", "wrong", "cleaned", Some(manager())),
        Outcome::Done
    );
    assert_eq!(
        memory.audit,
        vec![("moderator".to_string(), "Edited a post: moderated".to_string())]
    );
    assert_eq!(post_of(get(&db, &mut memory, "moderated")).content, "cleaned");
}

#[test]
fn edit_by_other_identity_is_not_allowed_even_with_the_password() {
    let db = engine();
    let mut memory = Memory::new();
    with_groups(&mut memory);
    let post = post_of(create(&db, &mut memory, "private", "body", "right"));
    assert_eq!(
        edit(&db, &mut memory, "private", "4.4.4.4", "right", "taken", Some(helper())),
        Outcome::Failed(DatabaseError::NotAllowed)
    );
    assert!(memory.audit.is_empty());
    assert_eq!(memory.posts, vec![post]);
    let stranger = Identity { id: "stranger".to_string(), group: 99 };
    assert_eq!(
        edit(&db, &mut memory, "private", "4.4.4.4", "right", "taken", Some(stranger)),
        Outcome::Failed(DatabaseError::NotAllowed)
    );
}

#[test]
fn failed_audit_stops_the_edit() {
    let db = engine();
    let mut memory = Memory::new();
    with_groups(&mut memory);
    let post = post_of(create(&db, &mut memory, "unattributed", "body", "right"));
    memory.audit_fails = true;
    assert_eq!(
        edit(&db, &mut memory, "unattributed", "4.4.4.4", "right", "changed", Some(manager())),
        Outcome::Failed(DatabaseError::Other)
    );
    assert_eq!(memory.posts, vec![post]);
}

#[test]
fn unreadable_group_is_other() {
    let db = engine();
    let mut memory = Memory::new();
    create(&db, &mut memory, "grouped", "body", "right");
    let mut step = db.delete_post("grouped".to_string(), "right".to_string(), Some(manager()));
    loop {
        match step {
            Step::Ask(Request::Permissions { group }, task) => {
                assert_eq!(group, 7);
                step = db.resume(task, Reply::Permissions(None));
            }
            Step::Ask(request, task) => {
                let reply = memory.answer(&request);
                step = db.resume(task, reply);
            }
            Step::Done(outcome) => {
                assert_eq!(outcome, Outcome::Failed(DatabaseError::Other));
                break;
            }
        }
    }
    assert_eq!(memory.posts.len(), 1);
}

#[test]
fn eleven_edits_leave_ten_origins() {
    let db = engine();
    let mut memory = Memory::new();
    create(&db, &mut memory, "busy", "body", "pw");
    for i in 0..11 {
        let ip = format!("10.1.1.{}", i);
        assert_eq!(edit(&db, &mut memory, "busy", &ip, "pw", "body", None), Outcome::Done);
    }
    let post = post_of(get(&db, &mut memory, "busy"));
    assert_eq!(post.ips.len(), 10);
    let origins: Vec<String> = post.ips.iter().map(|entry| entry.1.clone()).collect();
    let expected: Vec<String> = (1..11).map(|i| format!("10.1.1.{}", i)).collect();
    assert_eq!(origins, expected);
}

#[test]
fn nine_edits_keep_every_origin() {
    let db = engine();
    let mut memory = Memory::new();
    create(&db, &mut memory, "calm", "body", "pw");
    for i in 0..9 {
        let ip = format!("10.1.1.{}", i);
        assert_eq!(edit(&db, &mut memory, "calm", &ip, "pw", "body", None), Outcome::Done);
    }
    let post = post_of(get(&db, &mut memory, "calm"));
    assert_eq!(post.ips.len(), 10);
    assert_eq!(post.ips[0].1, "10.0.0.1");
    assert_eq!(post.ips[9].1, "10.1.1.8");
}

#[test]
fn edit_context_replaces_the_metadata_only() {
    let db = engine();
    let mut memory = Memory::new();
    let post = post_of(create(&db, &mut memory, "titled", "body", "pw"));
    get(&db, &mut memory, "titled");
    let mut context = PostContext::default();
    context.title = "A title".to_string();
    context.view_password = "peek".to_string();
    let outcome = memory.run(
        &db,
        db.edit_post_context("titled".to_string(), "pw".to_string(), context.clone(), None),
    );
    assert_eq!(outcome, Outcome::Done);
    let read = post_of(get(&db, &mut memory, "titled"));
    assert_eq!(read.context, context);
    assert_eq!(read.content, post.content);
    assert_eq!(read.date_edited, post.date_edited);
    assert_eq!(read.ips, post.ips);
    let refused = memory.run(
        &db,
        db.edit_post_context("titled".to_string(), "no".to_string(), PostContext::default(), None),
    );
    assert_eq!(refused, Outcome::Failed(DatabaseError::PasswordIncorrect));
}

#[test]
fn edit_context_by_manager_is_audited() {
    let db = durable_engine();
    let mut memory = Memory::new();
    with_groups(&mut memory);
    create(&db, &mut memory, "titled", "body", "pw");
    memory.asked.clear();
    let outcome = memory.run(
        &db,
        db.edit_post_context(
            "titled".to_string(),
            String::new(),
            PostContext::default(),
            Some(manager()),
        ),
    );
    assert_eq!(outcome, Outcome::Done);
    assert_eq!(
        memory.audit,
        vec![("moderator".to_string(), "Edited a post's context: titled".to_string())]
    );
    assert!(memory.asked.contains(&Request::UpdateContext {
        query: "UPDATE \"posts\" SET (\"context\" = $1) WHERE \"slug\" = $2".to_string(),
        context: PostContext::default(),
        slug: "titled".to_string(),
    }));
}

#[test]
fn delete_then_get_is_not_found() {
    let db = engine();
    let mut memory = Memory::new();
    create(&db, &mut memory, "doomed", "body", "pw");
    get(&db, &mut memory, "doomed");
    memory.run(&db, db.incr_views_by_slug("doomed".to_string()));
    assert_eq!(
        memory.run(&db, db.delete_post("doomed".to_string(), "no".to_string(), None)),
        Outcome::Failed(DatabaseError::PasswordIncorrect)
    );
    assert_eq!(
        memory.run(&db, db.delete_post("Doomed".to_string(), "pw".to_string(), None)),
        Outcome::Done
    );
    assert!(memory.posts.is_empty());
    assert!(memory.cache.is_empty());
    assert_eq!(get(&db, &mut memory, "doomed"), Outcome::Failed(DatabaseError::NotFound));
    assert_eq!(
        memory.run(&db, db.get_views_by_slug("doomed".to_string())),
        Outcome::Views(0)
    );
}

#[test]
fn delete_in_durable_mode_removes_the_view_log() {
    let db = durable_engine();
    let mut memory = Memory::new();
    with_groups(&mut memory);
    create(&db, &mut memory, "logged", "body", "pw");
    memory.views.push(("logged".to_string(), "ann".to_string()));
    memory.views.push(("logged".to_string(), "bob".to_string()));
    memory.views.push(("other".to_string(), "ann".to_string()));
    assert_eq!(
        memory.run(&db, db.get_views_by_slug("logged".to_string())),
        Outcome::Views(2)
    );
    assert_eq!(
        memory.run(&db, db.user_has_viewed_post("logged".to_string(), "ann".to_string())),
        Outcome::Viewed(true)
    );
    assert_eq!(
        memory.run(&db, db.delete_post("logged".to_string(), String::new(), Some(manager()))),
        Outcome::Done
    );
    assert_eq!(
        memory.audit,
        vec![("moderator".to_string(), "Deleted a post: logged".to_string())]
    );
    assert_eq!(memory.views, vec![("other".to_string(), "ann".to_string())]);
    assert_eq!(
        memory.run(&db, db.get_views_by_slug("logged".to_string())),
        Outcome::Views(0)
    );
    assert_eq!(
        memory.run(&db, db.user_has_viewed_post("logged".to_string(), "ann".to_string())),
        Outcome::Viewed(false)
    );
}

#[test]
fn delete_asks_in_the_stated_order() {
    let db = durable_engine();
    let mut memory = Memory::new();
    create(&db, &mut memory, "ordered", "body", "pw");
    get(&db, &mut memory, "ordered");
    memory.asked.clear();
    memory.run(&db, db.delete_post("ordered".to_string(), "pw".to_string(), None));
    assert_eq!(
        memory.asked,
        vec![
            Request::CachedPost { key: "pb.post:ordered".to_string() },
            Request::Forget { key: "pb.view:ordered".to_string() },
            Request::DeletePost {
                query: "DELETE FROM \"posts\" WHERE \"slug\" = $1".to_string(),
                slug: "ordered".to_string(),
            },
            Request::Forget { key: "pb.post:ordered".to_string() },
            Request::DeleteViews {
                query: "DELETE FROM \"views\" WHERE \"slug\" = $1".to_string(),
                slug: "ordered".to_string(),
            },
        ]
    );
}

#[test]
fn failed_store_delete_is_other() {
    let db = engine();
    let mut memory = Memory::new();
    create(&db, &mut memory, "sticky", "body", "pw");
    get(&db, &mut memory, "sticky");
    memory.store_fails = true;
    assert_eq!(
        memory.run(&db, db.delete_post("sticky".to_string(), "pw".to_string(), None)),
        Outcome::Failed(DatabaseError::Other)
    );
}

#[test]
fn clone_of_missing_source_is_not_found() {
    let db = engine();
    let mut memory = Memory::new();
    let props = ClonePost {
        source: "nothing".to_string(),
        slug: "copy".to_string(),
        password: "pw".to_string(),
    };
    assert_eq!(
        memory.run(&db, db.clone_post(props, String::new())),
        Outcome::Failed(DatabaseError::NotFound)
    );
    assert!(memory.posts.is_empty());
}

#[test]
fn clone_copies_content_but_not_metadata() {
    let db = engine();
    let mut memory = Memory::new();
    create(&db, &mut memory, "Template", "shared body", "pw");
    let mut context = PostContext::default();
    context.title = "The template".to_string();
    context.owner = "ann".to_string();
    context.template = "@".to_string();
    memory.run(
        &db,
        db.edit_post_context("template".to_string(), "pw".to_string(), context, None),
    );
    let props = ClonePost {
        source: "TEMPLATE".to_string(),
        slug: "Copy".to_string(),
        password: "other".to_string(),
    };
    let outcome = memory.run(&db, db.clone_post(props, "8.8.8.8".to_string()));
    let (password, post) = match outcome {
        Outcome::Created(password, post) => (password, post),
        other => panic!("{:?}", other),
    };
    assert_eq!(password, "other");
    assert_eq!(post.slug, "copy");
    assert_eq!(post.content, "shared body");
    assert_eq!(post.context.title, "");
    assert_eq!(post.context.owner, "");
    assert_eq!(post.context.template, "template");
    assert_eq!(post.date_published, post.date_edited);
    assert_eq!(post.ips.len(), 1);
    assert_eq!(post_of(get(&db, &mut memory, "copy")), post);
}

#[test]
fn clone_into_existing_slug_fails() {
    let db = engine();
    let mut memory = Memory::new();
    create(&db, &mut memory, "template", "shared body", "pw");
    create(&db, &mut memory, "taken", "mine", "pw");
    let props = ClonePost {
        source: "template".to_string(),
        slug: "Taken".to_string(),
        password: "pw".to_string(),
    };
    assert_eq!(
        memory.run(&db, db.clone_post(props, String::new())),
        Outcome::Failed(DatabaseError::AlreadyExists)
    );
}

#[test]
fn views_are_counted_in_the_cache() {
    let db = engine();
    let mut memory = Memory::new();
    assert_eq!(memory.run(&db, db.get_views_by_slug("seen".to_string())), Outcome::Views(0));
    assert_eq!(memory.run(&db, db.incr_views_by_slug("Seen".to_string())), Outcome::Done);
    assert_eq!(memory.run(&db, db.incr_views_by_slug("seen".to_string())), Outcome::Done);
    assert_eq!(memory.run(&db, db.get_views_by_slug("SEEN".to_string())), Outcome::Views(2));
    assert!(memory.views.is_empty());
    assert_eq!(
        memory.run(&db, db.user_has_viewed_post("seen".to_string(), "ann".to_string())),
        Outcome::Viewed(false)
    );
}

#[test]
fn failed_increment_is_other() {
    let db = engine();
    let task = match db.incr_views_by_slug("seen".to_string()) {
        Step::Ask(Request::Increment { key }, task) => {
            assert_eq!(key, "pb.view:seen");
            task
        }
        other => panic!("{:?}", other),
    };
    assert_eq!(task, Task::Incrementing);
    assert_eq!(
        db.resume(task, Reply::Done(false)),
        Step::Done(Outcome::Failed(DatabaseError::Other))
    );
}

#[test]
fn durable_count_is_cached_after_the_first_read() {
    let db = durable_engine();
    let mut memory = Memory::new();
    memory.views.push(("logged".to_string(), "ann".to_string()));
    assert_eq!(
        memory.run(&db, db.get_views_by_slug("logged".to_string())),
        Outcome::Views(1)
    );
    assert_eq!(
        memory.asked,
        vec![
            Request::CachedCount { key: "pb.view:logged".to_string() },
            Request::CountViews {
                query: "SELECT * FROM \"views\" WHERE \"slug\" = $1".to_string(),
                slug: "logged".to_string(),
            },
            Request::CacheCount { key: "pb.view:logged".to_string(), count: 1 },
        ]
    );
    memory.views.push(("logged".to_string(), "bob".to_string()));
    assert_eq!(
        memory.run(&db, db.get_views_by_slug("logged".to_string())),
        Outcome::Views(1)
    );
}

#[test]
fn unreadable_view_log_counts_as_zero() {
    let db = durable_engine();
    let task = match db.get_views_by_slug("logged".to_string()) {
        Step::Ask(_, task) => task,
        other => panic!("{:?}", other),
    };
    let task = match db.resume(task, Reply::Count(None)) {
        Step::Ask(Request::CountViews { .. }, task) => task,
        other => panic!("{:?}", other),
    };
    assert_eq!(db.resume(task, Reply::Total(None)), Step::Done(Outcome::Views(0)));
}

#[test]
fn init_creates_the_tables() {
    let db = engine();
    let mut memory = Memory::new();
    assert_eq!(memory.run(&db, db.init()), Outcome::Done);
    assert_eq!(
        memory.asked,
        vec![Request::CreateTable {
            statement: "CREATE TABLE IF NOT EXISTS \"posts\" (id TEXT, slug TEXT, password TEXT, content TEXT, date_published TEXT, date_edited TEXT, context TEXT, ips TEXT)".to_string(),
        }]
    );
    let durable = durable_engine();
    let mut memory = Memory::new();
    assert_eq!(memory.run(&durable, durable.init()), Outcome::Done);
    assert_eq!(memory.asked.len(), 2);
    assert_eq!(
        memory.asked[1],
        Request::CreateTable {
            statement: "CREATE TABLE IF NOT EXISTS \"views\" (slug TEXT, id TEXT)".to_string(),
        }
    );
}

#[test]
fn no_operation_asks_more_than_ten_times() {
    let db = durable_engine();
    let mut memory = Memory::new();
    with_groups(&mut memory);
    create(&db, &mut memory, "template", "body", "pw");
    memory.asked.clear();
    let props = ClonePost {
        source: "template".to_string(),
        slug: "copy".to_string(),
        password: "pw".to_string(),
    };
    memory.run(&db, db.clone_post(props, String::new()));
    assert!(memory.asked.len() <= 10);
    memory.asked.clear();
    memory.run(&db, db.delete_post("copy".to_string(), String::new(), Some(manager())));
    assert_eq!(memory.asked.len(), 9);
}

fn assert_cache_agrees(memory: &Memory) {
    for (key, entry) in memory.cache.iter() {
        if let Entry::Post(cached) = entry {
            let slug = key.strip_prefix("pb.post:").unwrap();
            let stored = memory.posts.iter().find(|post| post.slug == slug);
            assert_eq!(stored, Some(cached));
        }
    }
}

fn assert_slugs_unique(memory: &Memory) {
    for (i, post) in memory.posts.iter().enumerate() {
        for other in memory.posts.iter().skip(i + 1) {
            assert_ne!(post.slug, other.slug);
        }
    }
}

#[test]
fn cache_agrees_with_store_and_slugs_stay_unique() {
    let db = durable_engine();
    let mut memory = Memory::new();
    with_groups(&mut memory);
    let check = |memory: &Memory| {
        assert_cache_agrees(memory);
        assert_slugs_unique(memory);
    };
    create(&db, &mut memory, "first", "one", "pw");
    check(&memory);
    get(&db, &mut memory, "first");
    check(&memory);
    create(&db, &mut memory, "First", "again", "pw");
    check(&memory);
    create(&db, &mut memory, "second", "two", "pw");
    get(&db, &mut memory, "second");
    check(&memory);
    edit(&db, &mut memory, "first", "1.1.1.1", "pw", "changed", None);
    check(&memory);
    get(&db, &mut memory, "first");
    check(&memory);
    let renamed = memory.run(
        &db,
        db.edit_post(
            "first".to_string(),
            "1.1.1.1".to_string(),
            "pw".to_string(),
            "moved".to_string(),
            "Third".to_string(),
            String::new(),
            None,
        ),
    );
    assert_eq!(renamed, Outcome::Done);
    check(&memory);
    assert_eq!(post_of(get(&db, &mut memory, "third")).content, "moved");
    assert_eq!(get(&db, &mut memory, "first"), Outcome::Failed(DatabaseError::NotFound));
    check(&memory);
    let props = ClonePost {
        source: "third".to_string(),
        slug: "fourth".to_string(),
        password: String::new(),
    };
    memory.run(&db, db.clone_post(props, String::new()));
    check(&memory);
    memory.run(
        &db,
        db.edit_post_context(
            "second".to_string(),
            String::new(),
            PostContext::default(),
            Some(manager()),
        ),
    );
    check(&memory);
    memory.run(&db, db.get_views_by_slug("second".to_string()));
    memory.run(&db, db.incr_views_by_slug("second".to_string()));
    check(&memory);
    memory.run(&db, db.delete_post("second".to_string(), "pw".to_string(), None));
    check(&memory);
    assert_eq!(memory.posts.len(), 2);
}

#[test]
fn created_slugs_are_their_own_canonical_form() {
    let db = engine();
    let mut memory = Memory::new();
    for slug in ["Mixed-Case", "bücher", "", "x_Y.z!"] {
        let post = post_of(create(&db, &mut memory, slug, "body", "pw"));
        assert_eq!(beambin_core::slug::normalize(&post.slug), Ok(post.slug.clone()));
    }
}

fn rename(
    db: &Database,
    memory: &mut Memory,
    slug: &str,
    password: &str,
    new_slug: &str,
    user: Option<Identity>,
) -> Outcome {
    memory.run(
        db,
        db.edit_post(
            slug.to_string(),
            "5.5.5.5".to_string(),
            password.to_string(),
            "moved".to_string(),
            new_slug.to_string(),
            String::new(),
            user,
        ),
    )
}

#[test]
fn rename_onto_a_taken_slug_is_refused() {
    let db = engine();
    let mut memory = Memory::new();
    with_groups(&mut memory);
    create(&db, &mut memory, "aaa", "first", "pw");
    create(&db, &mut memory, "bbb", "second", "pw");
    let before = memory.posts.clone();
    assert_eq!(
        rename(&db, &mut memory, "aaa", "pw", "bbb", None),
        Outcome::Failed(DatabaseError::AlreadyExists)
    );
    assert_eq!(
        rename(&db, &mut memory, "aaa", "pw", "BBB", None),
        Outcome::Failed(DatabaseError::AlreadyExists)
    );
    assert_eq!(
        rename(&db, &mut memory, "AAA", "pw", "Bbb", None),
        Outcome::Failed(DatabaseError::AlreadyExists)
    );
    assert_eq!(
        rename(&db, &mut memory, "aaa", "", "bbb", Some(manager())),
        Outcome::Failed(DatabaseError::AlreadyExists)
    );
    assert_eq!(memory.posts, before);
    assert!(memory.audit.is_empty());
    assert_slugs_unique(&memory);
    assert_cache_agrees(&memory);
    assert_eq!(post_of(get(&db, &mut memory, "aaa")).content, "first");
    assert_eq!(post_of(get(&db, &mut memory, "bbb")).content, "second");
}

#[test]
fn rename_onto_a_cached_slug_is_refused_without_the_store() {
    let db = engine();
    let mut memory = Memory::new();
    create(&db, &mut memory, "aaa", "first", "pw");
    create(&db, &mut memory, "bbb", "second", "pw");
    get(&db, &mut memory, "aaa");
    get(&db, &mut memory, "bbb");
    memory.asked.clear();
    assert_eq!(
        rename(&db, &mut memory, "aaa", "pw", "bbb", None),
        Outcome::Failed(DatabaseError::AlreadyExists)
    );
    assert_eq!(
        memory.asked,
        vec![
            Request::CachedPost { key: "pb.post:aaa".to_string() },
            Request::CachedPost { key: "pb.post:bbb".to_string() },
        ]
    );
}

#[test]
fn rename_to_its_own_slug_is_an_edit_in_place() {
    let db = engine();
    let mut memory = Memory::new();
    create(&db, &mut memory, "same", "first", "pw");
    memory.asked.clear();
    assert_eq!(rename(&db, &mut memory, "same", "pw", "SAME", None), Outcome::Done);
    assert_eq!(memory.posts.len(), 1);
    assert_eq!(memory.posts[0].slug, "same");
    assert_eq!(memory.posts[0].content, "moved");
    assert!(!memory.asked.iter().any(|request| matches!(
        request,
        Request::FetchPost { slug, .. } if slug != "same"
    )));
}

#[test]
fn rename_to_a_free_slug_looks_it_up_first() {
    let db = engine();
    let mut memory = Memory::new();
    with_groups(&mut memory);
    create(&db, &mut memory, "old-name", "first", "pw");
    get(&db, &mut memory, "old-name");
    memory.asked.clear();
    assert_eq!(
        rename(&db, &mut memory, "old-name", "", "New-Name", Some(manager())),
        Outcome::Done
    );
    let kinds: Vec<&str> = memory
        .asked
        .iter()
        .map(|request| match request {
            Request::CachedPost { .. } => "cached",
            Request::FetchPost { .. } => "fetch",
            Request::Permissions { .. } => "permissions",
            Request::Audit { .. } => "audit",
            Request::UpdatePost { .. } => "update",
            Request::Forget { .. } => "forget",
            _ => "other",
        })
        .collect();
    assert_eq!(
        kinds,
        vec!["cached", "permissions", "cached", "fetch", "audit", "update", "forget"]
    );
    assert_eq!(
        memory.audit,
        vec![("moderator".to_string(), "Edited a post: old-name".to_string())]
    );
    assert_eq!(get(&db, &mut memory, "old-name"), Outcome::Failed(DatabaseError::NotFound));
    assert_eq!(post_of(get(&db, &mut memory, "new-name")).content, "moved");
}

#[test]
fn edit_checks_the_content() {
    let db = engine();
    let mut memory = Memory::new();
    with_groups(&mut memory);
    let post = post_of(create(&db, &mut memory, "checked", "body", "pw"));
    assert_eq!(
        edit(&db, &mut memory, "checked", "1.1.1.1", "pw", "", None),
        Outcome::Failed(DatabaseError::ValueError)
    );
    let long = "a".repeat(200_001);
    assert_eq!(
        edit(&db, &mut memory, "checked", "1.1.1.1", "pw", &long, None),
        Outcome::Failed(DatabaseError::ValueError)
    );
    assert_eq!(
        edit(&db, &mut memory, "checked", "1.1.1.1", "", "", Some(manager())),
        Outcome::Failed(DatabaseError::ValueError)
    );
    assert_eq!(memory.posts, vec![post]);
    assert!(memory.audit.is_empty());
    assert!(!memory.asked.iter().any(|request| matches!(request, Request::UpdatePost { .. })));
    let full = "a".repeat(200_000);
    assert_eq!(edit(&db, &mut memory, "checked", "1.1.1.1", "pw", &full, None), Outcome::Done);
    assert_eq!(edit(&db, &mut memory, "checked", "1.1.1.1", "pw", "a", None), Outcome::Done);
}

#[test]
fn edit_checks_the_password_before_the_content() {
    let db = engine();
    let mut memory = Memory::new();
    create(&db, &mut memory, "guarded", "body", "pw");
    assert_eq!(
        edit(&db, &mut memory, "guarded", "1.1.1.1", "wrong", "", None),
        Outcome::Failed(DatabaseError::PasswordIncorrect)
    );
}

#[test]
fn edit_checks_the_new_slug() {
    let db = engine();
    let mut memory = Memory::new();
    with_groups(&mut memory);
    let post = post_of(create(&db, &mut memory, "named", "body", "pw"));
    for bad in ["ab", "not ok", "a/b", "x\ny-z"] {
        assert_eq!(
            rename(&db, &mut memory, "named", "pw", bad, None),
            Outcome::Failed(DatabaseError::ValueError)
        );
        assert_eq!(
            rename(&db, &mut memory, "named", "", bad, Some(manager())),
            Outcome::Failed(DatabaseError::ValueError)
        );
    }
    let too_long = "s".repeat(251);
    assert_eq!(
        rename(&db, &mut memory, "named", "pw", &too_long, None),
        Outcome::Failed(DatabaseError::ValueError)
    );
    assert_eq!(memory.posts, vec![post]);
    assert!(memory.audit.is_empty());
    let longest = "s".repeat(250);
    assert_eq!(rename(&db, &mut memory, "named", "pw", &longest, None), Outcome::Done);
    assert_eq!(rename(&db, &mut memory, &longest, "pw", "abc", None), Outcome::Done);
    assert_eq!(rename(&db, &mut memory, "abc", "pw", "bücher", None), Outcome::Done);
    assert_eq!(memory.posts[0].slug, "bcher-kva");
}

use beambin_core::config::{PostsConfig, ViewsConfig};
use beambin_core::database::Change;
use beambin_core::model::PostContext;
use beambin_core::query::{
    cache_key, create_posts, create_views, delete_post, delete_views, insert_post, select_post,
    select_view, select_views, update_context, update_post, Placeholders,
};

fn remapped() -> PostsConfig {
    PostsConfig {
        table_name: "entries".to_string(),
        prefix: "e".to_string(),
        id: "c_id".to_string(),
        slug: "c_slug".to_string(),
        password: "c_password".to_string(),
        content: "c_content".to_string(),
        date_published: "c_published".to_string(),
        date_edited: "c_edited".to_string(),
        context: "c_context".to_string(),
        ips: "c_ips".to_string(),
    }
}

#[test]
fn placeholders_follow_the_database_type() {
    assert_eq!(Placeholders::for_type("sqlite"), Placeholders::Positional);
    assert_eq!(Placeholders::for_type("mysql"), Placeholders::Positional);
    assert_eq!(Placeholders::for_type("postgres"), Placeholders::Numbered);
    assert_eq!(Placeholders::for_type(""), Placeholders::Numbered);
    assert_eq!(Placeholders::for_type("SQLite"), Placeholders::Numbered);
}

#[test]
fn markers() {
    assert_eq!(Placeholders::Positional.marker(1), "?");
    assert_eq!(Placeholders::Positional.marker(8), "?");
    assert_eq!(Placeholders::Numbered.marker(1), "$1");
    assert_eq!(Placeholders::Numbered.marker(5), "$5");
    assert_eq!(Placeholders::Numbered.marker(8), "$8");
}

#[test]
fn cache_keys() {
    assert_eq!(cache_key("pb.post", "my-paste!"), "pb.post:my-paste!");
    assert_eq!(cache_key("pb.view", ""), "pb.view:");
    assert_eq!(cache_key("", "x"), ":x");
}

#[test]
fn select_post_text() {
    let posts = PostsConfig::default();
    assert_eq!(
        select_post(&posts, Placeholders::Positional),
        "SELECT * FROM \"posts\" WHERE \"slug\" = ?"
    );
    assert_eq!(
        select_post(&remapped(), Placeholders::Numbered),
        "SELECT * FROM \"entries\" WHERE \"c_slug\" = $1"
    );
}

#[test]
fn insert_post_text() {
    let posts = PostsConfig::default();
    assert_eq!(
        insert_post(&posts, Placeholders::Positional),
        "INSERT INTO \"posts\" VALUES (?, ?, ?, ?, ?, ?, ?, ?)"
    );
    assert_eq!(
        insert_post(&remapped(), Placeholders::Numbered),
        "INSERT INTO \"entries\" VALUES ($1, $2, $3, $4, $5, $6, $7, $8)"
    );
}

#[test]
fn delete_post_text() {
    let posts = PostsConfig::default();
    assert_eq!(
        delete_post(&posts, Placeholders::Positional),
        "DELETE FROM \"posts\" WHERE \"slug\" = ?"
    );
    assert_eq!(
        delete_post(&remapped(), Placeholders::Numbered),
        "DELETE FROM \"entries\" WHERE \"c_slug\" = $1"
    );
}

#[test]
fn update_post_text() {
    let posts = PostsConfig::default();
    assert_eq!(
        update_post(&posts, Placeholders::Positional),
        "UPDATE \"posts\" SET \"content\" = ?, \"password\" = ?, \"slug\" = ?, \"date_edited\" = ?, \"ips\" = ? WHERE \"slug\" = ?"
    );
    assert_eq!(
        update_post(&remapped(), Placeholders::Numbered),
        "UPDATE \"entries\" SET (\"c_content\" = $1, \"c_password\" = $2, \"c_slug\" = $3, \"c_edited\" = $4, \"c_ips\" = $5) WHERE \"c_slug\" = $6"
    );
}

#[test]
fn update_context_text() {
    let posts = PostsConfig::default();
    assert_eq!(
        update_context(&posts, Placeholders::Positional),
        "UPDATE \"posts\" SET \"context\" = ? WHERE \"slug\" = ?"
    );
    assert_eq!(
        update_context(&remapped(), Placeholders::Numbered),
        "UPDATE \"entries\" SET (\"c_context\" = $1) WHERE \"c_slug\" = $2"
    );
}

#[test]
fn view_log_texts() {
    let views = ViewsConfig::default();
    assert_eq!(
        select_views(&views, Placeholders::Positional),
        "SELECT * FROM \"views\" WHERE \"slug\" = ?"
    );
    assert_eq!(
        select_views(&views, Placeholders::Numbered),
        "SELECT * FROM \"views\" WHERE \"slug\" = $1"
    );
    assert_eq!(
        select_view(&views, Placeholders::Positional),
        "SELECT * FROM \"views\" WHERE \"slug\" = ? AND \"id\" = ?"
    );
    assert_eq!(
        select_view(&views, Placeholders::Numbered),
        "SELECT * FROM \"views\" WHERE \"slug\" = $1 AND \"id\" = $2"
    );
    assert_eq!(
        delete_views(&views, Placeholders::Positional),
        "DELETE FROM \"views\" WHERE \"slug\" = ?"
    );
    assert_eq!(
        delete_views(&views, Placeholders::Numbered),
        "DELETE FROM \"views\" WHERE \"slug\" = $1"
    );
}

#[test]
fn create_table_texts() {
    assert_eq!(
        create_posts(&remapped()),
        "CREATE TABLE IF NOT EXISTS \"entries\" (c_id TEXT, c_slug TEXT, c_password TEXT, c_content TEXT, c_published TEXT, c_edited TEXT, c_context TEXT, c_ips TEXT)"
    );
    let views = ViewsConfig { table_name: "seen".to_string(), prefix: "v".to_string() };
    assert_eq!(create_views(&views), "CREATE TABLE IF NOT EXISTS \"seen\" (slug TEXT, id TEXT)");
}

#[test]
fn audit_messages() {
    assert_eq!(Change::Delete.audit_message("gone"), "Deleted a post: gone");
    let edit = Change::Edit {
        ip: String::new(),
        content: String::new(),
        slug: String::new(),
        password: String::new(),
        now: 0,
    };
    assert_eq!(edit.audit_message("changed"), "Edited a post: changed");
    let context = Change::Context { context: PostContext::default() };
    assert_eq!(context.audit_message("titled"), "Edited a post's context: titled");
}

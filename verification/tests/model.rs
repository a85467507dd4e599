use beambin_core::auth::{authorize, holds_manager, Access, Permission};
use beambin_core::config::{Config, PostsConfig, ViewsConfig};
use beambin_core::model::{
    copy_ip_log, DatabaseError, Post, PostContext, PublicPost, ViewMode,
};
use beambin_core::protocol::{Outcome, Row};
use beambin_core::utility::Fresh;

fn sample_post() -> Post {
    Post {
        id: "id-1".to_string(),
        slug: "sample".to_string(),
        content: "body".to_string(),
        password: "digest".to_string(),
        date_published: 10,
        date_edited: 20,
        context: PostContext {
            title: "Title".to_string(),
            description: "Description".to_string(),
            theme_color: "#fff".to_string(),
            favicon: "/icon.svg".to_string(),
            view_password: "peek".to_string(),
            owner: "ann".to_string(),
            template: "@".to_string(),
            next: "next".to_string(),
            previous: "previous".to_string(),
        },
        ips: vec![(10, "1.1.1.1".to_string()), (20, "2.2.2.2".to_string())],
    }
}

#[test]
fn error_messages() {
    assert_eq!(DatabaseError::PasswordIncorrect.to_string(), "The given password is invalid.");
    assert_eq!(DatabaseError::ContentTooShort.to_string(), "Content too short!");
    assert_eq!(DatabaseError::ContentTooLong.to_string(), "Content too long!");
    assert_eq!(
        DatabaseError::AlreadyExists.to_string(),
        "A post with this slug already exists."
    );
    assert_eq!(DatabaseError::NotAllowed.to_string(), "You are not allowed to do this!");
    assert_eq!(
        DatabaseError::ValueError.to_string(),
        "One of the field values given is invalid!"
    );
    assert_eq!(
        DatabaseError::NotFound.to_string(),
        "Nothing with this path exists or you do not have access to it!"
    );
    assert_eq!(
        DatabaseError::Banned.to_string(),
        "You're banned for suspected systems abuse or violating TOS."
    );
    assert_eq!(DatabaseError::Other.to_string(), "An unspecified error has occured");
}

#[test]
fn view_mode_defaults_to_open() {
    assert_eq!(ViewMode::default(), ViewMode::OpenMultiple);
}

#[test]
fn default_context_is_empty() {
    let context = PostContext::default();
    assert_eq!(context.title, "");
    assert_eq!(context.description, "");
    assert_eq!(context.theme_color, "");
    assert_eq!(context.favicon, "");
    assert_eq!(context.view_password, "");
    assert_eq!(context.owner, "");
    assert_eq!(context.template, "");
    assert_eq!(context.next, "");
    assert_eq!(context.previous, "");
}

#[test]
fn context_from_post_names_the_template_only() {
    let context = PostContext::from(sample_post());
    let mut expected = PostContext::default();
    expected.template = "sample".to_string();
    assert_eq!(context, expected);
}

#[test]
fn public_post_leaves_secrets_out() {
    let post = sample_post();
    let public = PublicPost::from(post.clone());
    assert_eq!(public.slug, post.slug);
    assert_eq!(public.content, post.content);
    assert_eq!(public.date_published, 10);
    assert_eq!(public.date_edited, 20);
    assert_eq!(public.context, post.context);
    assert_eq!(public.clone(), public);
}

#[test]
fn clones_are_equal() {
    let post = sample_post();
    assert_eq!(post.clone(), post);
    assert_eq!(post.context.clone(), post.context);
    assert_eq!(copy_ip_log(&post.ips), post.ips);
    assert_eq!(copy_ip_log(&Vec::new()), Vec::new());
}

#[test]
fn row_becomes_its_post() {
    let post = sample_post();
    let row = Row {
        id: post.id.clone(),
        slug: post.slug.clone(),
        password: post.password.clone(),
        content: post.content.clone(),
        date_published: post.date_published,
        date_edited: post.date_edited,
        context: Some(post.context.clone()),
        ips: Some(post.ips.clone()),
    };
    assert_eq!(row.into_post(), Ok(post));
}

#[test]
fn malformed_row_is_value_error() {
    let post = sample_post();
    let without_context = Row {
        id: post.id.clone(),
        slug: post.slug.clone(),
        password: post.password.clone(),
        content: post.content.clone(),
        date_published: post.date_published,
        date_edited: post.date_edited,
        context: None,
        ips: Some(post.ips.clone()),
    };
    assert_eq!(without_context.into_post(), Err(DatabaseError::ValueError));
    let without_ips = Row {
        id: post.id.clone(),
        slug: post.slug.clone(),
        password: post.password.clone(),
        content: post.content.clone(),
        date_published: post.date_published,
        date_edited: post.date_edited,
        context: Some(post.context.clone()),
        ips: None,
    };
    assert_eq!(without_ips.into_post(), Err(DatabaseError::ValueError));
}

#[test]
fn default_config() {
    let config = Config::default();
    assert_eq!(config.port, 8080);
    assert_eq!(config.name, "Beambin");
    assert_eq!(config.description, "");
    assert_eq!(config.static_dir, "./.config");
    assert_eq!(config.real_ip_header, None);
    assert_eq!(config.host, "");
    assert!(config.blocked_hosts.is_empty());
    assert!(config.tokens.is_empty());
    assert_eq!(config.info_post_slug, "");
    assert!(!config.view_password);
    assert!(!config.post_ownership);
    assert_eq!(config.view_mode, ViewMode::OpenMultiple);
    assert_eq!(config.table_posts, PostsConfig::default());
    assert_eq!(config.table_views, ViewsConfig::default());
}

#[test]
fn truthy_config_enables_the_features() {
    let config = Config::truthy();
    assert!(config.view_password);
    assert!(config.post_ownership);
    let mut expected = Config::default();
    expected.view_password = true;
    expected.post_ownership = true;
    assert_eq!(config, expected);
}

#[test]
fn default_table_names() {
    let posts = PostsConfig::default();
    assert_eq!(posts.table_name, "posts");
    assert_eq!(posts.prefix, "pb.post");
    assert_eq!(posts.id, "id");
    assert_eq!(posts.slug, "slug");
    assert_eq!(posts.password, "password");
    assert_eq!(posts.content, "content");
    assert_eq!(posts.date_published, "date_published");
    assert_eq!(posts.date_edited, "date_edited");
    assert_eq!(posts.context, "context");
    assert_eq!(posts.ips, "ips");
    let views = ViewsConfig::default();
    assert_eq!(views.table_name, "views");
    assert_eq!(views.prefix, "pb.view");
}

#[test]
fn config_clone_is_equal() {
    let mut config = Config::truthy();
    config.real_ip_header = Some("X-Real-IP".to_string());
    config.blocked_hosts = vec!["https://bad.example".to_string(), "https://worse.example".to_string()];
    config.tokens = vec!["token".to_string()];
    config.view_mode = ViewMode::AuthenticatedOnce;
    config.table_posts.table_name = "entries".to_string();
    assert_eq!(config.clone(), config);
}

#[test]
fn gate_checks_the_password_without_an_identity() {
    let stored = "2bb80d537b1da3e38bd30361aa855686bde0eacd7162fef6a25fe97bf527a25b";
    assert_eq!(authorize(stored, "secret", None), Access::Granted { audit: false });
    assert_eq!(
        authorize(stored, "Secret", None),
        Access::Denied(DatabaseError::PasswordIncorrect)
    );
    assert_eq!(authorize(stored, stored, None), Access::Denied(DatabaseError::PasswordIncorrect));
    assert_eq!(
        authorize("secret", "secret", None),
        Access::Denied(DatabaseError::PasswordIncorrect)
    );
}

#[test]
fn gate_checks_the_permissions_of_an_identity() {
    let stored = "2bb80d537b1da3e38bd30361aa855686bde0eacd7162fef6a25fe97bf527a25b";
    let managers = vec![Permission::Helper, Permission::Manager];
    let helpers = vec![Permission::Helper];
    let admins = vec![Permission::Admin];
    assert_eq!(authorize(stored, "wrong", Some(&managers)), Access::Granted { audit: true });
    assert_eq!(authorize(stored, "secret", Some(&managers)), Access::Granted { audit: true });
    assert_eq!(
        authorize(stored, "secret", Some(&helpers)),
        Access::Denied(DatabaseError::NotAllowed)
    );
    assert_eq!(
        authorize(stored, "secret", Some(&admins)),
        Access::Denied(DatabaseError::NotAllowed)
    );
    assert_eq!(
        authorize(stored, "secret", Some(&Vec::new())),
        Access::Denied(DatabaseError::NotAllowed)
    );
    assert!(holds_manager(&managers));
    assert!(!holds_manager(&helpers));
}

#[test]
fn drawn_values_have_their_shape() {
    let first = Fresh::draw();
    let second = Fresh::draw();
    for fresh in [&first, &second] {
        assert_eq!(fresh.id.len(), 64);
        assert_eq!(fresh.slug.len(), 10);
        assert_eq!(fresh.password.len(), 10);
        let hex = |text: &String| text.chars().all(|c| matches!(c, '0'..='9' | 'a'..='f'));
        assert!(hex(&fresh.id));
        assert!(hex(&fresh.slug));
        assert!(hex(&fresh.password));
        assert!(fresh.now > 1_600_000_000_000);
    }
    assert_ne!(first.id, second.id);
    assert_ne!(first.slug, first.password);
}

#[test]
fn outcomes_become_results() {
    let post = sample_post();
    assert_eq!(Outcome::Post(post.clone()).into_post(), Ok(post.clone()));
    assert_eq!(
        Outcome::Failed(DatabaseError::NotFound).into_post(),
        Err(DatabaseError::NotFound)
    );
    assert_eq!(Outcome::Done.into_post(), Err(DatabaseError::Other));
    assert_eq!(
        Outcome::Created("pw".to_string(), post.clone()).into_created(),
        Ok(("pw".to_string(), post.clone()))
    );
    assert_eq!(
        Outcome::Failed(DatabaseError::AlreadyExists).into_created(),
        Err(DatabaseError::AlreadyExists)
    );
    assert_eq!(Outcome::Post(post.clone()).into_created(), Err(DatabaseError::Other));
    assert_eq!(Outcome::Done.into_done(), Ok(()));
    assert_eq!(
        Outcome::Failed(DatabaseError::NotAllowed).into_done(),
        Err(DatabaseError::NotAllowed)
    );
    assert_eq!(Outcome::Views(3).into_done(), Err(DatabaseError::Other));
    assert_eq!(Outcome::Views(3).into_views(), 3);
    assert_eq!(Outcome::Failed(DatabaseError::Other).into_views(), 0);
    assert!(Outcome::Viewed(true).into_viewed());
    assert!(!Outcome::Viewed(false).into_viewed());
    assert!(!Outcome::Done.into_viewed());
}

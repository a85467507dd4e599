//! The text of every statement that the engine sends to the relational store, and of every
//! key under which it caches. Both are functions of the configuration alone.
use crate::config::{PostsConfig, ViewsConfig};
use crate::model::Text;
use vstd::prelude::*;

verus! {

/// How a statement marks the places of its parameters.
#[derive(Debug, Clone, Copy, PartialEq, Eq, Structural)]
pub enum Placeholders {
    /// Every parameter is marked `?`, as SQLite and MySQL have it.
    Positional,
    /// The parameters are marked `$1`, `$2` and so on, as PostgreSQL has it.
    Numbered,
}

/// The mark of the `n`-th parameter of a statement, counted from 1. No statement of the
/// engine has more than eight.
pub open spec fn marker_text(style: Placeholders, n: int) -> Text {
    match style {
        Placeholders::Positional => "?"@,
        Placeholders::Numbered => if n == 1 {
            "$1"@
        } else if n == 2 {
            "$2"@
        } else if n == 3 {
            "$3"@
        } else if n == 4 {
            "$4"@
        } else if n == 5 {
            "$5"@
        } else if n == 6 {
            "$6"@
        } else if n == 7 {
            "$7"@
        } else {
            "$8"@
        },
    }
}

/// What opens the list of assignments of an `UPDATE`.
pub open spec fn set_open(style: Placeholders) -> Text {
    match style {
        Placeholders::Positional => ""@,
        Placeholders::Numbered => "("@,
    }
}

/// What closes the list of assignments of an `UPDATE`.
pub open spec fn set_close(style: Placeholders) -> Text {
    match style {
        Placeholders::Positional => ""@,
        Placeholders::Numbered => ")"@,
    }
}

/// The key under which a value is cached: a prefix, a colon, and the slug.
pub open spec fn cache_key_text(prefix: Text, slug: Text) -> Text {
    prefix + ":"@ + slug
}

/// The statement that reads the post of a slug. Its parameter is the slug.
pub open spec fn select_post_text(posts: &PostsConfig, style: Placeholders) -> Text {
    "SELECT * FROM \""@ + posts.table_name@ + "\" WHERE \""@ + posts.slug@ + "\" = "@
        + marker_text(style, 1)
}

/// The statement that stores a post. Its parameters are the eight columns of a post, in
/// the order id, slug, password, content, date published, date edited, context, ips.
pub open spec fn insert_post_text(posts: &PostsConfig, style: Placeholders) -> Text {
    "INSERT INTO \""@ + posts.table_name@ + "\" VALUES ("@ + marker_text(style, 1) + ", "@
        + marker_text(style, 2) + ", "@ + marker_text(style, 3) + ", "@ + marker_text(style, 4)
        + ", "@ + marker_text(style, 5) + ", "@ + marker_text(style, 6) + ", "@ + marker_text(
        style,
        7,
    ) + ", "@ + marker_text(style, 8) + ")"@
}

/// The statement that removes the post of a slug. Its parameter is the slug.
pub open spec fn delete_post_text(posts: &PostsConfig, style: Placeholders) -> Text {
    "DELETE FROM \""@ + posts.table_name@ + "\" WHERE \""@ + posts.slug@ + "\" = "@
        + marker_text(style, 1)
}

/// The statement that rewrites a post. Its parameters are the new content, password digest,
/// slug, date edited and origin log, and then the slug of the post to rewrite.
pub open spec fn update_post_text(posts: &PostsConfig, style: Placeholders) -> Text {
    "UPDATE \""@ + posts.table_name@ + "\" SET "@ + set_open(style) + "\""@ + posts.content@
        + "\" = "@ + marker_text(style, 1) + ", \""@ + posts.password@ + "\" = "@ + marker_text(
        style,
        2,
    ) + ", \""@ + posts.slug@ + "\" = "@ + marker_text(style, 3) + ", \""@ + posts.date_edited@
        + "\" = "@ + marker_text(style, 4) + ", \""@ + posts.ips@ + "\" = "@ + marker_text(
        style,
        5,
    ) + set_close(style) + " WHERE \""@ + posts.slug@ + "\" = "@ + marker_text(style, 6)
}

/// The statement that rewrites the metadata of a post. Its parameters are the new metadata
/// and the slug of the post.
pub open spec fn update_context_text(posts: &PostsConfig, style: Placeholders) -> Text {
    "UPDATE \""@ + posts.table_name@ + "\" SET "@ + set_open(style) + "\""@ + posts.context@
        + "\" = "@ + marker_text(style, 1) + set_close(style) + " WHERE \""@ + posts.slug@
        + "\" = "@ + marker_text(style, 2)
}

/// The statement that reads the view log of a slug. Its parameter is the slug.
pub open spec fn select_views_text(views: &ViewsConfig, style: Placeholders) -> Text {
    "SELECT * FROM \""@ + views.table_name@ + "\" WHERE \"slug\" = "@ + marker_text(style, 1)
}

/// The statement that reads one viewer's entry of the view log of a slug. Its parameters
/// are the slug and the viewer's identifier.
pub open spec fn select_view_text(views: &ViewsConfig, style: Placeholders) -> Text {
    "SELECT * FROM \""@ + views.table_name@ + "\" WHERE \"slug\" = "@ + marker_text(style, 1)
        + " AND \"id\" = "@ + marker_text(style, 2)
}

/// The statement that removes the view log of a slug. Its parameter is the slug.
pub open spec fn delete_views_text(views: &ViewsConfig, style: Placeholders) -> Text {
    "DELETE FROM \""@ + views.table_name@ + "\" WHERE \"slug\" = "@ + marker_text(style, 1)
}

/// The statement that creates the table of posts, with one text column for each of the
/// eight columns of a post.
pub open spec fn create_posts_text(posts: &PostsConfig) -> Text {
    "CREATE TABLE IF NOT EXISTS \""@ + posts.table_name@ + "\" ("@ + posts.id@ + " TEXT, "@
        + posts.slug@ + " TEXT, "@ + posts.password@ + " TEXT, "@ + posts.content@ + " TEXT, "@
        + posts.date_published@ + " TEXT, "@ + posts.date_edited@ + " TEXT, "@ + posts.context@
        + " TEXT, "@ + posts.ips@ + " TEXT)"@
}

/// The statement that creates the table of the view log.
pub open spec fn create_views_text(views: &ViewsConfig) -> Text {
    "CREATE TABLE IF NOT EXISTS \""@ + views.table_name@ + "\" (slug TEXT, id TEXT)"@
}

impl Placeholders {
    /// The placeholders of a database of the given type: positional for `sqlite` and
    /// `mysql`, numbered for any other.
    pub open spec fn of_type(database_type: Text) -> Placeholders {
        if database_type == "sqlite"@ || database_type == "mysql"@ {
            Placeholders::Positional
        } else {
            Placeholders::Numbered
        }
    }

    /// The placeholders of a database of the given type.
    pub fn for_type(database_type: &str) -> (r: Placeholders)
        ensures
            r == Placeholders::of_type(database_type@),
    {
        let name = String::from_str(database_type);
        if name == String::from_str("sqlite") || name == String::from_str("mysql") {
            Placeholders::Positional
        } else {
            Placeholders::Numbered
        }
    }

    /// The mark of the `n`-th parameter of a statement.
    pub fn marker(self, n: u8) -> (r: &'static str)
        ensures
            r@ == marker_text(self, n as int),
    {
        match self {
            Placeholders::Positional => "?",
            Placeholders::Numbered => {
                if n == 1 {
                    "$1"
                } else if n == 2 {
                    "$2"
                } else if n == 3 {
                    "$3"
                } else if n == 4 {
                    "$4"
                } else if n == 5 {
                    "$5"
                } else if n == 6 {
                    "$6"
                } else if n == 7 {
                    "$7"
                } else {
                    "$8"
                }
            },
        }
    }

    fn open(self) -> (r: &'static str)
        ensures
            r@ == set_open(self),
    {
        match self {
            Placeholders::Positional => "",
            Placeholders::Numbered => "(",
        }
    }

    fn close(self) -> (r: &'static str)
        ensures
            r@ == set_close(self),
    {
        match self {
            Placeholders::Positional => "",
            Placeholders::Numbered => ")",
        }
    }
}

/// The key under which a value of `slug` is cached under `prefix`.
pub fn cache_key(prefix: &str, slug: &str) -> (r: String)
    ensures
        r@ == cache_key_text(prefix@, slug@),
{
    let mut key = String::from_str(prefix);
    key.append(":");
    key.append(slug);
    key
}

/// The statement that reads the post of a slug.
pub fn select_post(posts: &PostsConfig, style: Placeholders) -> (r: String)
    ensures
        r@ == select_post_text(posts, style),
{
    let mut q = String::from_str("SELECT * FROM \"");
    q.append(posts.table_name.as_str());
    q.append("\" WHERE \"");
    q.append(posts.slug.as_str());
    q.append("\" = ");
    q.append(style.marker(1));
    q
}

/// The statement that stores a post.
pub fn insert_post(posts: &PostsConfig, style: Placeholders) -> (r: String)
    ensures
        r@ == insert_post_text(posts, style),
{
    let mut q = String::from_str("INSERT INTO \"");
    q.append(posts.table_name.as_str());
    q.append("\" VALUES (");
    q.append(style.marker(1));
    q.append(", ");
    q.append(style.marker(2));
    q.append(", ");
    q.append(style.marker(3));
    q.append(", ");
    q.append(style.marker(4));
    q.append(", ");
    q.append(style.marker(5));
    q.append(", ");
    q.append(style.marker(6));
    q.append(", ");
    q.append(style.marker(7));
    q.append(", ");
    q.append(style.marker(8));
    q.append(")");
    q
}

/// The statement that removes the post of a slug.
pub fn delete_post(posts: &PostsConfig, style: Placeholders) -> (r: String)
    ensures
        r@ == delete_post_text(posts, style),
{
    let mut q = String::from_str("DELETE FROM \"");
    q.append(posts.table_name.as_str());
    q.append("\" WHERE \"");
    q.append(posts.slug.as_str());
    q.append("\" = ");
    q.append(style.marker(1));
    q
}

/// The statement that rewrites a post.
pub fn update_post(posts: &PostsConfig, style: Placeholders) -> (r: String)
    ensures
        r@ == update_post_text(posts, style),
{
    let mut q = String::from_str("UPDATE \"");
    q.append(posts.table_name.as_str());
    q.append("\" SET ");
    q.append(style.open());
    q.append("\"");
    q.append(posts.content.as_str());
    q.append("\" = ");
    q.append(style.marker(1));
    q.append(", \"");
    q.append(posts.password.as_str());
    q.append("\" = ");
    q.append(style.marker(2));
    q.append(", \"");
    q.append(posts.slug.as_str());
    q.append("\" = ");
    q.append(style.marker(3));
    q.append(", \"");
    q.append(posts.date_edited.as_str());
    q.append("\" = ");
    q.append(style.marker(4));
    q.append(", \"");
    q.append(posts.ips.as_str());
    q.append("\" = ");
    q.append(style.marker(5));
    q.append(style.close());
    q.append(" WHERE \"");
    q.append(posts.slug.as_str());
    q.append("\" = ");
    q.append(style.marker(6));
    q
}

/// The statement that rewrites the metadata of a post.
pub fn update_context(posts: &PostsConfig, style: Placeholders) -> (r: String)
    ensures
        r@ == update_context_text(posts, style),
{
    let mut q = String::from_str("UPDATE \"");
    q.append(posts.table_name.as_str());
    q.append("\" SET ");
    q.append(style.open());
    q.append("\"");
    q.append(posts.context.as_str());
    q.append("\" = ");
    q.append(style.marker(1));
    q.append(style.close());
    q.append(" WHERE \"");
    q.append(posts.slug.as_str());
    q.append("\" = ");
    q.append(style.marker(2));
    q
}

/// The statement that reads the view log of a slug.
pub fn select_views(views: &ViewsConfig, style: Placeholders) -> (r: String)
    ensures
        r@ == select_views_text(views, style),
{
    let mut q = String::from_str("SELECT * FROM \"");
    q.append(views.table_name.as_str());
    q.append("\" WHERE \"slug\" = ");
    q.append(style.marker(1));
    q
}

/// The statement that reads one viewer's entry of the view log of a slug.
pub fn select_view(views: &ViewsConfig, style: Placeholders) -> (r: String)
    ensures
        r@ == select_view_text(views, style),
{
    let mut q = String::from_str("SELECT * FROM \"");
    q.append(views.table_name.as_str());
    q.append("\" WHERE \"slug\" = ");
    q.append(style.marker(1));
    q.append(" AND \"id\" = ");
    q.append(style.marker(2));
    q
}

/// The statement that removes the view log of a slug.
pub fn delete_views(views: &ViewsConfig, style: Placeholders) -> (r: String)
    ensures
        r@ == delete_views_text(views, style),
{
    let mut q = String::from_str("DELETE FROM \"");
    q.append(views.table_name.as_str());
    q.append("\" WHERE \"slug\" = ");
    q.append(style.marker(1));
    q
}

/// The statement that creates the table of posts.
pub fn create_posts(posts: &PostsConfig) -> (r: String)
    ensures
        r@ == create_posts_text(posts),
{
    let mut q = String::from_str("CREATE TABLE IF NOT EXISTS \"");
    q.append(posts.table_name.as_str());
    q.append("\" (");
    q.append(posts.id.as_str());
    q.append(" TEXT, ");
    q.append(posts.slug.as_str());
    q.append(" TEXT, ");
    q.append(posts.password.as_str());
    q.append(" TEXT, ");
    q.append(posts.content.as_str());
    q.append(" TEXT, ");
    q.append(posts.date_published.as_str());
    q.append(" TEXT, ");
    q.append(posts.date_edited.as_str());
    q.append(" TEXT, ");
    q.append(posts.context.as_str());
    q.append(" TEXT, ");
    q.append(posts.ips.as_str());
    q.append(" TEXT)");
    q
}

/// The statement that creates the table of the view log.
pub fn create_views(views: &ViewsConfig) -> (r: String)
    ensures
        r@ == create_views_text(views),
{
    let mut q = String::from_str("CREATE TABLE IF NOT EXISTS \"");
    q.append(views.table_name.as_str());
    q.append("\" (slug TEXT, id TEXT)");
    q
}

} // verus!

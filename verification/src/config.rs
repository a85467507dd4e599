//! Configuration: the names under which posts and views are stored and cached, and what
//! the site allows.
use crate::model::{Text, ViewMode};
use vstd::prelude::*;

verus! {

/// Where posts are stored: the table, the prefix of their cache keys, and the physical
/// name of each logical column.
#[derive(Debug, PartialEq, Eq)]
pub struct PostsConfig {
    /// The name of the table.
    pub table_name: String,
    /// The prefix of the cache keys of posts.
    pub prefix: String,
    /// The `id` column.
    pub id: String,
    /// The `slug` column.
    pub slug: String,
    /// The `password` column.
    pub password: String,
    /// The `content` column.
    pub content: String,
    /// The `date_published` column.
    pub date_published: String,
    /// The `date_edited` column.
    pub date_edited: String,
    /// The `context` column.
    pub context: String,
    /// The `ips` column.
    pub ips: String,
}

impl PostsConfig {
    /// Whether every name is the one that a fresh installation uses.
    pub open spec fn is_default(&self) -> bool {
        &&& self.table_name@ == "posts"@
        &&& self.prefix@ == "pb.post"@
        &&& self.id@ == "id"@
        &&& self.slug@ == "slug"@
        &&& self.password@ == "password"@
        &&& self.content@ == "content"@
        &&& self.date_published@ == "date_published"@
        &&& self.date_edited@ == "date_edited"@
        &&& self.context@ == "context"@
        &&& self.ips@ == "ips"@
    }

    /// Whether two configurations hold the same names.
    pub open spec fn same(&self, other: &PostsConfig) -> bool {
        &&& self.table_name@ == other.table_name@
        &&& self.prefix@ == other.prefix@
        &&& self.id@ == other.id@
        &&& self.slug@ == other.slug@
        &&& self.password@ == other.password@
        &&& self.content@ == other.content@
        &&& self.date_published@ == other.date_published@
        &&& self.date_edited@ == other.date_edited@
        &&& self.context@ == other.context@
        &&& self.ips@ == other.ips@
    }
}

impl Default for PostsConfig {
    fn default() -> (r: Self)
        ensures
            r.is_default(),
    {
        PostsConfig {
            table_name: String::from_str("posts"),
            prefix: String::from_str("pb.post"),
            id: String::from_str("id"),
            slug: String::from_str("slug"),
            password: String::from_str("password"),
            content: String::from_str("content"),
            date_published: String::from_str("date_published"),
            date_edited: String::from_str("date_edited"),
            context: String::from_str("context"),
            ips: String::from_str("ips"),
        }
    }
}

impl Clone for PostsConfig {
    fn clone(&self) -> (r: Self)
        ensures
            r.same(self),
    {
        PostsConfig {
            table_name: self.table_name.clone(),
            prefix: self.prefix.clone(),
            id: self.id.clone(),
            slug: self.slug.clone(),
            password: self.password.clone(),
            content: self.content.clone(),
            date_published: self.date_published.clone(),
            date_edited: self.date_edited.clone(),
            context: self.context.clone(),
            ips: self.ips.clone(),
        }
    }
}

/// Where views are stored: the table of the durable view log, and the prefix of the cache
/// keys of view counters.
#[derive(Debug, PartialEq, Eq)]
pub struct ViewsConfig {
    /// The name of the table.
    pub table_name: String,
    /// The prefix of the cache keys of view counters.
    pub prefix: String,
}

impl ViewsConfig {
    /// Whether both names are the ones that a fresh installation uses.
    pub open spec fn is_default(&self) -> bool {
        &&& self.table_name@ == "views"@
        &&& self.prefix@ == "pb.view"@
    }

    /// Whether two configurations hold the same names.
    pub open spec fn same(&self, other: &ViewsConfig) -> bool {
        &&& self.table_name@ == other.table_name@
        &&& self.prefix@ == other.prefix@
    }
}

impl Default for ViewsConfig {
    fn default() -> (r: Self)
        ensures
            r.is_default(),
    {
        ViewsConfig { table_name: String::from_str("views"), prefix: String::from_str("pb.view") }
    }
}

impl Clone for ViewsConfig {
    fn clone(&self) -> (r: Self)
        ensures
            r.same(self),
    {
        ViewsConfig { table_name: self.table_name.clone(), prefix: self.prefix.clone() }
    }
}

/// A list of texts as contracts see it.
pub open spec fn texts_view(texts: Seq<String>) -> Seq<Text> {
    Seq::new(texts.len(), |i: int| texts[i]@)
}

/// A copy of a list of texts.
pub fn copy_texts(texts: &Vec<String>) -> (r: Vec<String>)
    ensures
        texts_view(r@) == texts_view(texts@),
{
    let mut out: Vec<String> = Vec::new();
    let mut i: usize = 0;
    while i < texts.len()
        invariant
            i <= texts.len(),
            out.len() == i,
            forall|j: int| 0 <= j < i ==> out@[j]@ == texts@[j]@,
        decreases texts.len() - i,
    {
        out.push(texts[i].clone());
        i = i + 1;
    }
    assert(texts_view(out@) =~= texts_view(texts@));
    out
}

/// The configuration of a site.
#[derive(Debug, PartialEq, Eq)]
pub struct Config {
    /// The port to serve on.
    pub port: u16,
    /// The name of the site.
    pub name: String,
    /// The description of the site.
    pub description: String,
    /// The directory of static files.
    pub static_dir: String,
    /// The header that carries the origin address of a request.
    pub real_ip_header: Option<String>,
    /// The origin of the public server, used in embeds and links.
    pub host: String,
    /// External hosts that are blocked.
    pub blocked_hosts: Vec<String>,
    /// Tokens that authorize moderator actions.
    pub tokens: Vec<String>,
    /// The slug of the site's information post.
    pub info_post_slug: String,
    /// Whether a post may require a password to be viewed.
    pub view_password: bool,
    /// Whether a post may have an owner.
    pub post_ownership: bool,
    /// How views are counted.
    pub view_mode: ViewMode,
    /// Where posts are stored.
    pub table_posts: PostsConfig,
    /// Where views are stored.
    pub table_views: ViewsConfig,
}

impl Config {
    /// Whether the configuration is the one of a fresh installation, with the two
    /// optional features switched as `features` says.
    pub open spec fn is_fresh(&self, features: bool) -> bool {
        &&& self.port == 8080
        &&& self.name@ == "Beambin"@
        &&& self.description@ == Seq::<char>::empty()
        &&& self.static_dir@ == "./.config"@
        &&& self.real_ip_header is None
        &&& self.host@ == Seq::<char>::empty()
        &&& self.blocked_hosts@.len() == 0
        &&& self.tokens@.len() == 0
        &&& self.info_post_slug@ == Seq::<char>::empty()
        &&& self.view_password == features
        &&& self.post_ownership == features
        &&& self.view_mode == ViewMode::OpenMultiple
        &&& self.table_posts.is_default()
        &&& self.table_views.is_default()
    }

    /// Whether two configurations say the same.
    pub open spec fn same(&self, other: &Config) -> bool {
        &&& self.port == other.port
        &&& self.name@ == other.name@
        &&& self.description@ == other.description@
        &&& self.static_dir@ == other.static_dir@
        &&& self.real_ip_header.deep_view() == other.real_ip_header.deep_view()
        &&& self.host@ == other.host@
        &&& texts_view(self.blocked_hosts@) == texts_view(other.blocked_hosts@)
        &&& texts_view(self.tokens@) == texts_view(other.tokens@)
        &&& self.info_post_slug@ == other.info_post_slug@
        &&& self.view_password == other.view_password
        &&& self.post_ownership == other.post_ownership
        &&& self.view_mode == other.view_mode
        &&& self.table_posts.same(&other.table_posts)
        &&& self.table_views.same(&other.table_views)
    }

    /// The configuration of a fresh installation with every optional feature enabled.
    pub fn truthy() -> (r: Self)
        ensures
            r.is_fresh(true),
    {
        Config {
            port: 8080,
            name: String::from_str("Beambin"),
            description: String::new(),
            static_dir: String::from_str("./.config"),
            host: String::new(),
            blocked_hosts: Vec::new(),
            real_ip_header: None,
            tokens: Vec::new(),
            info_post_slug: String::new(),
            view_password: true,
            post_ownership: true,
            view_mode: ViewMode::OpenMultiple,
            table_posts: PostsConfig::default(),
            table_views: ViewsConfig::default(),
        }
    }
}

impl Default for Config {
    fn default() -> (r: Self)
        ensures
            r.is_fresh(false),
    {
        Config {
            port: 8080,
            name: String::from_str("Beambin"),
            description: String::new(),
            static_dir: String::from_str("./.config"),
            host: String::new(),
            blocked_hosts: Vec::new(),
            real_ip_header: None,
            tokens: Vec::new(),
            info_post_slug: String::new(),
            view_password: false,
            post_ownership: false,
            view_mode: ViewMode::OpenMultiple,
            table_posts: PostsConfig::default(),
            table_views: ViewsConfig::default(),
        }
    }
}

impl Clone for Config {
    fn clone(&self) -> (r: Self)
        ensures
            r.same(self),
    {
        let real_ip_header = match &self.real_ip_header {
            Some(header) => Some(header.clone()),
            None => None,
        };
        Config {
            port: self.port,
            name: self.name.clone(),
            description: self.description.clone(),
            static_dir: self.static_dir.clone(),
            real_ip_header,
            host: self.host.clone(),
            blocked_hosts: copy_texts(&self.blocked_hosts),
            tokens: copy_texts(&self.tokens),
            info_post_slug: self.info_post_slug.clone(),
            view_password: self.view_password,
            post_ownership: self.post_ownership,
            view_mode: self.view_mode,
            table_posts: self.table_posts.clone(),
            table_views: self.table_views.clone(),
        }
    }
}

} // verus!

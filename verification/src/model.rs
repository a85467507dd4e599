//! The data of the engine: posts, their metadata, the requests that change them, and errors.
use vstd::prelude::*;

verus! {

/// A text as contracts see it.
pub type Text = Seq<char>;

/// How views of a post are counted.
#[derive(Clone, Copy, Debug, PartialEq, Eq, Structural)]
pub enum ViewMode {
    /// Only authenticated users count as a view, and only once: the count is the number of
    /// rows of a durable view log.
    AuthenticatedOnce,
    /// Anybody counts as a view, any number of times; the count lives in the cache alone.
    OpenMultiple,
}

impl Default for ViewMode {
    fn default() -> (r: Self)
        ensures
            r == ViewMode::OpenMultiple,
    {
        ViewMode::OpenMultiple
    }
}

/// One entry of a post's origin log: (timestamp, origin address).
pub type IPLog = (u128, String);

/// The largest number of entries that a post's origin log keeps.
pub const IP_LOG_LIMIT: usize = 10;

/// The metadata of a [`Post`].
#[derive(Debug, PartialEq, Eq)]
pub struct PostContext {
    /// Page title.
    pub title: String,
    /// Page description.
    pub description: String,
    /// Theme color.
    pub theme_color: String,
    /// Favicon link.
    pub favicon: String,
    /// View password, compared as it is written; empty for none.
    pub view_password: String,
    /// Owner username.
    pub owner: String,
    /// Template linkage: empty for a standalone post, `@` for a post that is a template,
    /// otherwise the slug of the template that the post derives from.
    pub template: String,
    /// The slug of the next post of the collection.
    pub next: String,
    /// The slug of the previous post of the collection.
    pub previous: String,
}

/// A [`PostContext`] as contracts see it.
#[verifier::ext_equal]
pub struct PostContextView {
    pub title: Text,
    pub description: Text,
    pub theme_color: Text,
    pub favicon: Text,
    pub view_password: Text,
    pub owner: Text,
    pub template: Text,
    pub next: Text,
    pub previous: Text,
}

impl PostContextView {
    /// The metadata of a post that has none.
    pub open spec fn empty() -> PostContextView {
        PostContextView::derived(Seq::empty())
    }

    /// The metadata of a post that derives from the template `template`, and of no other
    /// kind: nothing else is set.
    pub open spec fn derived(template: Text) -> PostContextView {
        PostContextView {
            title: Seq::empty(),
            description: Seq::empty(),
            theme_color: Seq::empty(),
            favicon: Seq::empty(),
            view_password: Seq::empty(),
            owner: Seq::empty(),
            template,
            next: Seq::empty(),
            previous: Seq::empty(),
        }
    }
}

impl View for PostContext {
    type V = PostContextView;

    open spec fn view(&self) -> PostContextView {
        PostContextView {
            title: self.title@,
            description: self.description@,
            theme_color: self.theme_color@,
            favicon: self.favicon@,
            view_password: self.view_password@,
            owner: self.owner@,
            template: self.template@,
            next: self.next@,
            previous: self.previous@,
        }
    }
}

impl Default for PostContext {
    fn default() -> (r: Self)
        ensures
            r@ == PostContextView::empty(),
    {
        PostContext {
            title: String::new(),
            description: String::new(),
            theme_color: String::new(),
            favicon: String::new(),
            view_password: String::new(),
            owner: String::new(),
            template: String::new(),
            next: String::new(),
            previous: String::new(),
        }
    }
}

impl Clone for PostContext {
    fn clone(&self) -> (r: Self)
        ensures
            r@ == self@,
    {
        PostContext {
            title: self.title.clone(),
            description: self.description.clone(),
            theme_color: self.theme_color.clone(),
            favicon: self.favicon.clone(),
            view_password: self.view_password.clone(),
            owner: self.owner.clone(),
            template: self.template.clone(),
            next: self.next.clone(),
            previous: self.previous.clone(),
        }
    }
}

impl PostContext {
    /// The metadata of a post that uses `value` as its template.
    pub fn from(value: Post) -> (r: Self)
        ensures
            r@ == PostContextView::derived(value.slug@),
    {
        PostContext {
            title: String::new(),
            description: String::new(),
            theme_color: String::new(),
            favicon: String::new(),
            view_password: String::new(),
            owner: String::new(),
            template: value.slug,
            next: String::new(),
            previous: String::new(),
        }
    }
}

/// An origin log as contracts see it.
pub open spec fn ip_log_view(ips: Seq<IPLog>) -> Seq<(u128, Text)> {
    Seq::new(ips.len(), |i: int| (ips[i].0, ips[i].1@))
}

/// A copy of an origin log.
pub fn copy_ip_log(ips: &Vec<IPLog>) -> (r: Vec<IPLog>)
    ensures
        ip_log_view(r@) == ip_log_view(ips@),
{
    let mut out: Vec<IPLog> = Vec::new();
    let mut i: usize = 0;
    while i < ips.len()
        invariant
            i <= ips.len(),
            out.len() == i,
            forall|j: int| 0 <= j < i ==> out@[j].0 == ips@[j].0 && out@[j].1@ == ips@[j].1@,
        decreases ips.len() - i,
    {
        out.push((ips[i].0, ips[i].1.clone()));
        i = i + 1;
    }
    assert(ip_log_view(out@) =~= ip_log_view(ips@));
    out
}

/// A published unit of content.
#[derive(Debug, PartialEq, Eq)]
pub struct Post {
    /// Opaque unique identifier; never changes.
    pub id: String,
    /// The normalized, unique, human-facing key.
    pub slug: String,
    /// The text body.
    pub content: String,
    /// The one-way hash of the edit password.
    pub password: String,
    /// When the post was created, in milliseconds since the Unix epoch.
    pub date_published: u128,
    /// When the post was last edited.
    pub date_edited: u128,
    /// Metadata.
    pub context: PostContext,
    /// Who touched the post: the most recent entries last.
    pub ips: Vec<IPLog>,
}

/// A [`Post`] as contracts see it.
#[verifier::ext_equal]
pub struct PostView {
    pub id: Text,
    pub slug: Text,
    pub content: Text,
    pub password: Text,
    pub date_published: u128,
    pub date_edited: u128,
    pub context: PostContextView,
    pub ips: Seq<(u128, Text)>,
}

impl View for Post {
    type V = PostView;

    open spec fn view(&self) -> PostView {
        PostView {
            id: self.id@,
            slug: self.slug@,
            content: self.content@,
            password: self.password@,
            date_published: self.date_published,
            date_edited: self.date_edited,
            context: self.context@,
            ips: ip_log_view(self.ips@),
        }
    }
}

impl Clone for Post {
    fn clone(&self) -> (r: Self)
        ensures
            r@ == self@,
    {
        Post {
            id: self.id.clone(),
            slug: self.slug.clone(),
            content: self.content.clone(),
            password: self.password.clone(),
            date_published: self.date_published,
            date_edited: self.date_edited,
            context: self.context.clone(),
            ips: copy_ip_log(&self.ips),
        }
    }
}

/// What of a [`Post`] may be shown to anybody: neither its password hash nor its origin log.
#[derive(Debug, PartialEq, Eq)]
pub struct PublicPost {
    pub slug: String,
    pub content: String,
    pub date_published: u128,
    pub date_edited: u128,
    pub context: PostContext,
}

/// A [`PublicPost`] as contracts see it.
#[verifier::ext_equal]
pub struct PublicPostView {
    pub slug: Text,
    pub content: Text,
    pub date_published: u128,
    pub date_edited: u128,
    pub context: PostContextView,
}

impl View for PublicPost {
    type V = PublicPostView;

    open spec fn view(&self) -> PublicPostView {
        PublicPostView {
            slug: self.slug@,
            content: self.content@,
            date_published: self.date_published,
            date_edited: self.date_edited,
            context: self.context@,
        }
    }
}

impl Clone for PublicPost {
    fn clone(&self) -> (r: Self)
        ensures
            r@ == self@,
    {
        PublicPost {
            slug: self.slug.clone(),
            content: self.content.clone(),
            date_published: self.date_published,
            date_edited: self.date_edited,
            context: self.context.clone(),
        }
    }
}

impl PublicPost {
    /// The public part of `value`.
    pub fn from(value: Post) -> (r: Self)
        ensures
            r@ == (PublicPostView {
                slug: value@.slug,
                content: value@.content,
                date_published: value@.date_published,
                date_edited: value@.date_edited,
                context: value@.context,
            }),
    {
        PublicPost {
            slug: value.slug,
            content: value.content,
            date_published: value.date_published,
            date_edited: value.date_edited,
            context: value.context,
        }
    }
}

/// What a caller supplies to create a post.
#[derive(Debug, PartialEq, Eq)]
pub struct CreatePost {
    /// The slug; empty to have one generated.
    pub slug: String,
    /// The content.
    pub content: String,
    /// The edit password; empty to have one generated.
    pub password: String,
}

/// What a caller supplies to create a post from a template.
#[derive(Debug, PartialEq, Eq)]
pub struct ClonePost {
    /// The slug of the post that serves as the template.
    pub source: String,
    /// The slug of the new post; empty to have one generated.
    pub slug: String,
    /// The edit password of the new post; empty to have one generated.
    pub password: String,
}

/// What a caller supplies to delete a post.
#[derive(Debug, PartialEq, Eq)]
pub struct DeletePost {
    /// The edit password.
    pub password: String,
}

/// What a caller supplies to edit a post.
#[derive(Debug, PartialEq, Eq)]
pub struct EditPost {
    /// The edit password.
    pub password: String,
    /// The new content.
    pub new_content: String,
    /// The new edit password; empty to keep the old one.
    pub new_password: String,
    /// The new slug; empty to keep the old one.
    pub new_slug: String,
}

/// What a caller supplies to replace a post's metadata.
#[derive(Debug, PartialEq, Eq)]
pub struct EditContext {
    /// The edit password.
    pub password: String,
    /// The new metadata.
    pub context: PostContext,
}

/// What can go wrong.
#[derive(Debug, Clone, Copy, PartialEq, Eq, Structural)]
pub enum DatabaseError {
    PasswordIncorrect,
    ContentTooShort,
    ContentTooLong,
    AlreadyExists,
    NotAllowed,
    ValueError,
    NotFound,
    Banned,
    Other,
}

impl DatabaseError {
    /// The message that goes with an error.
    pub open spec fn message(self) -> Text {
        match self {
            DatabaseError::PasswordIncorrect => "The given password is invalid."@,
            DatabaseError::ContentTooShort => "Content too short!"@,
            DatabaseError::ContentTooLong => "Content too long!"@,
            DatabaseError::AlreadyExists => "A post with this slug already exists."@,
            DatabaseError::NotAllowed => "You are not allowed to do this!"@,
            DatabaseError::ValueError => "One of the field values given is invalid!"@,
            DatabaseError::NotFound => "Nothing with this path exists or you do not have access to it!"@,
            DatabaseError::Banned => "You're banned for suspected systems abuse or violating TOS."@,
            DatabaseError::Other => "An unspecified error has occured"@,
        }
    }

    /// The message that goes with the error, for a reader.
    pub fn to_string(&self) -> (r: String)
        ensures
            r@ == self.message(),
    {
        match self {
            DatabaseError::PasswordIncorrect => String::from_str("The given password is invalid."),
            DatabaseError::ContentTooShort => String::from_str("Content too short!"),
            DatabaseError::ContentTooLong => String::from_str("Content too long!"),
            DatabaseError::AlreadyExists => String::from_str(
                "A post with this slug already exists.",
            ),
            DatabaseError::NotAllowed => String::from_str("You are not allowed to do this!"),
            DatabaseError::ValueError => String::from_str(
                "One of the field values given is invalid!",
            ),
            DatabaseError::NotFound => String::from_str(
                "Nothing with this path exists or you do not have access to it!",
            ),
            DatabaseError::Banned => String::from_str(
                "You're banned for suspected systems abuse or violating TOS.",
            ),
            DatabaseError::Other => String::from_str("An unspecified error has occured"),
        }
    }
}

} // verus!

//! What a page or an answer shows of a post: who may see it, under which title and
//! description, and which images are fetched on its behalf.
use crate::model::{DatabaseError, Post, PublicPost, PublicPostView, Text};
use crate::slug::first_chars;
use vstd::prelude::*;

verus! {

/// The number of characters of the content that stand in for a missing description.
pub const PREVIEW_LENGTH: usize = 100;

/// Whether a reader who supplies the view password `supplied` may see a post whose view
/// password is `required`. View passwords are compared as they are written. Where the site
/// has them switched off, or the post has none, everybody may.
pub open spec fn may_view(enabled: bool, supplied: Text, required: Text) -> bool {
    !enabled || required.len() == 0 || supplied == required
}

/// Whether a reader who supplies `supplied` may see a post whose view password is
/// `required`, on a site where view passwords are `enabled`.
pub fn can_view(enabled: bool, supplied: &str, required: &str) -> (r: bool)
    ensures
        r == may_view(enabled, supplied@, required@),
{
    if !enabled || required.is_empty() {
        return true;
    }
    String::from_str(supplied) == String::from_str(required)
}

/// What a reader sends along to see a post.
#[derive(Debug, PartialEq, Eq)]
pub struct PostViewQuery {
    /// The view password that the reader supplies; empty for none.
    pub view_password: String,
}

impl PostViewQuery {
    /// Whether the reader may see `post`, on a site where view passwords are `enabled`.
    pub fn opens(&self, enabled: bool, post: &Post) -> (r: bool)
        ensures
            r == may_view(enabled, self.view_password@, post@.context.view_password),
    {
        can_view(enabled, self.view_password.as_str(), post.context.view_password.as_str())
    }
}

/// What anybody may be shown of `post`.
///
/// Fails with [`DatabaseError::Other`] exactly where the post has a view password: such a
/// post is shown on its page only, where the password can be asked for.
pub fn public_post(post: Post) -> (r: Result<PublicPost, DatabaseError>)
    ensures
        match r {
            Ok(public) => post@.context.view_password.len() == 0 && public@ == (PublicPostView {
                slug: post@.slug,
                content: post@.content,
                date_published: post@.date_published,
                date_edited: post@.date_edited,
                context: post@.context,
            }),
            Err(e) => e == DatabaseError::Other && post@.context.view_password.len() > 0,
        },
{
    if !post.context.view_password.as_str().is_empty() {
        return Err(DatabaseError::Other);
    }
    Ok(PublicPost::from(post))
}

impl DatabaseError {
    /// The HTTP status that goes with an error.
    pub open spec fn status(self) -> u16 {
        match self {
            DatabaseError::PasswordIncorrect => 401,
            DatabaseError::AlreadyExists => 400,
            DatabaseError::NotFound => 404,
            _ => 500,
        }
    }

    /// The HTTP status that goes with the error.
    pub fn status_code(&self) -> (r: u16)
        ensures
            r == self.status(),
    {
        match self {
            DatabaseError::PasswordIncorrect => 401,
            DatabaseError::AlreadyExists => 400,
            DatabaseError::NotFound => 404,
            _ => 500,
        }
    }
}

/// A text with every `from` replaced by `to`.
pub open spec fn with_replaced(text: Text, from: char, to: char) -> Text {
    Seq::new(
        text.len(),
        |i: int|
            if text[i] == from {
                to
            } else {
                text[i]
            },
    )
}

/// A text with every `"` replaced by `'`.
pub open spec fn single_quoted(text: Text) -> Text {
    with_replaced(text, '"', '\'')
}

/// Calls `str::replace`, which replaces every match of a pattern. Here the pattern and what
/// replaces it are one character each.
#[verifier::external_body]
fn replace_char(text: &str, from: &str, to: &str) -> (r: String)
    requires
        from@.len() == 1,
        to@.len() == 1,
    ensures
        r@ == with_replaced(text@, from@[0], to@[0]),
{
    text.replace(from, to)
}

/// Calls `str::starts_with`, which says whether a text begins with another.
#[verifier::external_body]
fn has_prefix(text: &str, prefix: &str) -> (r: bool)
    ensures
        r == prefix@.is_prefix_of(text@),
{
    text.starts_with(prefix)
}

/// The HTML that `rainbeam_shared::ui::render_markdown` makes of a Markdown text.
pub uninterp spec fn markdown_html(input: Seq<char>) -> Seq<char>;

/// Calls `rainbeam_shared::ui::render_markdown`, which is a function of the text alone.
#[verifier::external_body]
fn render_markdown(input: &str) -> (r: String)
    ensures
        r@ == markdown_html(input@),
{
    rainbeam_shared::ui::render_markdown(input)
}

/// A Markdown text to render.
#[derive(Debug, PartialEq, Eq)]
pub struct RenderMarkdown {
    /// The text.
    pub content: String,
}

impl RenderMarkdown {
    /// The text as HTML.
    pub fn render(&self) -> (r: String)
        ensures
            r@ == markdown_html(self.content@),
    {
        render_markdown(self.content.as_str())
    }
}

/// The title of the page of a post: its title, or its slug where it has none.
pub open spec fn title_text(slug: Text, title: Text) -> Text {
    if title.len() == 0 {
        slug
    } else {
        title
    }
}

/// The description of the page of a post: its description, or, where it has none, the
/// first hundred characters of its content with `"` replaced by `'`.
pub open spec fn description_text(content: Text, description: Text) -> Text {
    if description.len() == 0 {
        single_quoted(
            content.take(
                if PREVIEW_LENGTH <= content.len() {
                    PREVIEW_LENGTH as int
                } else {
                    content.len() as int
                },
            ),
        )
    } else {
        description
    }
}

/// The theme color of the page of a post: its own, or the site's green where it has none.
pub open spec fn theme_color_text(theme_color: Text) -> Text {
    if theme_color.len() == 0 {
        "#6ee7b7"@
    } else {
        theme_color
    }
}

/// The icon of the page of a post: its own, or the site's where it has none.
pub open spec fn favicon_text(favicon: Text) -> Text {
    if favicon.len() == 0 {
        "/static/favicon.svg"@
    } else {
        favicon
    }
}

/// The tags that the page of a post puts in its head: description, theme color and icon.
pub open spec fn head_text(description: Text, theme_color: Text, favicon: Text) -> Text {
    "<meta property=\"og:description\" content=\""@ + description
        + "\" />\n<meta name=\"theme-color\" content=\""@ + theme_color
        + "\" />\n<link rel=\"icon\" href=\""@ + favicon + "\" />"@
}

/// What the page of a post shows besides the post itself.
#[derive(Debug, PartialEq, Eq)]
pub struct PostPage {
    /// The content, rendered as HTML.
    pub rendered: String,
    /// The title of the page.
    pub title: String,
    /// The number of views.
    pub views: i32,
    /// The tags for the head of the page.
    pub head_stuff: String,
}

impl PostPage {
    /// What the page of `post` shows, with `views` as the number of its views.
    pub fn of(post: &Post, views: i32) -> (r: PostPage)
        ensures
            r.rendered@ == markdown_html(post@.content),
            r.title@ == title_text(post@.slug, post@.context.title),
            r.views == views,
            r.head_stuff@ == head_text(
                description_text(post@.content, post@.context.description),
                theme_color_text(post@.context.theme_color),
                favicon_text(post@.context.favicon),
            ),
    {
        let rendered = render_markdown(post.content.as_str());
        let title = if post.context.title.as_str().is_empty() {
            post.slug.clone()
        } else {
            post.context.title.clone()
        };
        let description = if post.context.description.as_str().is_empty() {
            let preview = first_chars(post.content.as_str(), PREVIEW_LENGTH);
            proof {
                reveal_strlit("\"");
                reveal_strlit("'");
            }
            replace_char(preview.as_str(), "\"", "'")
        } else {
            post.context.description.clone()
        };
        let mut head = String::from_str("<meta property=\"og:description\" content=\"");
        head.append(description.as_str());
        head.append("\" />\n<meta name=\"theme-color\" content=\"");
        if post.context.theme_color.as_str().is_empty() {
            head.append("#6ee7b7");
        } else {
            head.append(post.context.theme_color.as_str());
        }
        head.append("\" />\n<link rel=\"icon\" href=\"");
        if post.context.favicon.as_str().is_empty() {
            head.append("/static/favicon.svg");
        } else {
            head.append(post.context.favicon.as_str());
        }
        head.append("\" />");
        PostPage { rendered, title, views, head_stuff: head }
    }
}

/// Where the image of an address comes from.
#[derive(Debug, Clone, Copy, PartialEq, Eq, Structural)]
pub enum ImageSource {
    /// The address is not fetched: the site's default image is served.
    Default,
    /// The image is fetched from the address.
    Remote,
}

/// Whether an address is not fetched: it is empty, begins with the origin of the site
/// itself, or begins with a blocked host.
pub open spec fn is_refused(url: Text, host: Text, blocked: Seq<String>) -> bool {
    ||| url.len() == 0
    ||| host.is_prefix_of(url)
    ||| exists|i: int| 0 <= i < blocked.len() && (#[trigger] blocked[i])@.is_prefix_of(url)
}

/// Where the image of the address `url` comes from, on a site of origin `host` that
/// blocks the hosts `blocked`.
pub fn image_source(url: &str, host: &str, blocked: &Vec<String>) -> (r: ImageSource)
    ensures
        r == (if is_refused(url@, host@, blocked@) {
            ImageSource::Default
        } else {
            ImageSource::Remote
        }),
{
    if has_prefix(url, host) {
        return ImageSource::Default;
    }
    let mut i: usize = 0;
    while i < blocked.len()
        invariant
            i <= blocked.len(),
            forall|j: int| 0 <= j < i ==> !(#[trigger] blocked@[j])@.is_prefix_of(url@),
        decreases blocked.len() - i,
    {
        if has_prefix(url, blocked[i].as_str()) {
            return ImageSource::Default;
        }
        i = i + 1;
    }
    if url.is_empty() {
        return ImageSource::Default;
    }
    ImageSource::Remote
}

/// The address of an image that a post shows.
#[derive(Debug, PartialEq, Eq)]
pub struct ExternalImageQuery {
    /// The address.
    pub img: String,
}

impl ExternalImageQuery {
    /// Where the image comes from, on a site of origin `host` that blocks the hosts
    /// `blocked`.
    pub fn source(&self, host: &str, blocked: &Vec<String>) -> (r: ImageSource)
        ensures
            r == (if is_refused(self.img@, host@, blocked@) {
                ImageSource::Default
            } else {
                ImageSource::Remote
            }),
    {
        image_source(self.img.as_str(), host, blocked)
    }
}

/// Whether a fetched image is taken for an error page, by the type of its content: HTML or
/// plain text.
pub open spec fn is_error_type(content_type: Text) -> bool {
    content_type == "text/html"@ || content_type == "text/plain"@
}

/// Whether a fetched image is taken for an error page, in place of which the default
/// image is served.
pub fn is_error_page(content_type: &str) -> (r: bool)
    ensures
        r == is_error_type(content_type@),
{
    let given = String::from_str(content_type);
    given == String::from_str("text/html") || given == String::from_str("text/plain")
}

/// The type under which a fetched image is served, given the type that its address lets
/// guess: the guess, but never HTML, and a stream of bytes where there is no guess.
pub open spec fn served_type_text(guess: Option<Text>) -> Text {
    match guess {
        Some(mime) => if mime == "text/html"@ {
            "text/plain"@
        } else {
            mime
        },
        None => "application/octet-stream"@,
    }
}

/// The type under which a fetched image is served.
pub fn served_type(guess: Option<&str>) -> (r: String)
    ensures
        r@ == served_type_text(
            match guess {
                Some(mime) => Some(mime@),
                None => None,
            },
        ),
{
    match guess {
        Some(mime) => {
            let guessed = String::from_str(mime);
            if guessed == String::from_str("text/html") {
                String::from_str("text/plain")
            } else {
                guessed
            }
        },
        None => String::from_str("application/octet-stream"),
    }
}

} // verus!

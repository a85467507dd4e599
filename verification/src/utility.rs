//! What the engine takes from its surroundings by a plain call: digests, random identifiers
//! and the time.
use crate::model::Text;
use crate::slug::{first_chars, is_hex};
use vstd::prelude::*;

verus! {

/// The length of a generated slug and of a generated password.
pub const GENERATED_LENGTH: usize = 10;

/// The length of a random identifier.
pub const ID_LENGTH: usize = 64;

/// The digest that `databeam::utility::hash` gives a text: its SHA-256 in hexadecimal
/// digits.
pub uninterp spec fn digest_of(input: Seq<char>) -> Seq<char>;

/// Calls `databeam::utility::hash`, which is a function of the text alone.
#[verifier::external_body]
pub(crate) fn hash(input: &str) -> (r: String)
    ensures
        r@ == digest_of(input@),
{
    databeam::utility::hash(input.to_string())
}

/// Calls `databeam::utility::random_id`, which hashes a random UUID. Claimed of it: what
/// comes back is a digest of 64 hexadecimal digits, in lower case. Which one is left open.
#[verifier::external_body]
pub(crate) fn random_id() -> (r: String)
    ensures
        r@.len() == ID_LENGTH,
        is_hex(r@),
{
    databeam::utility::random_id()
}

/// Calls `databeam::utility::unix_epoch_timestamp`: the milliseconds since the Unix epoch
/// by the system's clock. Nothing is claimed of the number. The call panics where the
/// clock stands before the epoch.
#[verifier::external_body]
pub(crate) fn unix_epoch_timestamp() -> (r: u128) {
    databeam::utility::unix_epoch_timestamp()
}

/// What the creation of a post draws from chance and from the clock.
#[derive(Debug, PartialEq, Eq)]
pub struct Fresh {
    /// The identifier of the post.
    pub id: String,
    /// The slug, for a post that is given none.
    pub slug: String,
    /// The edit password, for a post that is given none.
    pub password: String,
    /// The time of creation, in milliseconds since the Unix epoch.
    pub now: u128,
}

/// A [`Fresh`] as contracts see it.
#[verifier::ext_equal]
pub struct FreshView {
    pub id: Text,
    pub slug: Text,
    pub password: Text,
    pub now: u128,
}

impl View for Fresh {
    type V = FreshView;

    open spec fn view(&self) -> FreshView {
        FreshView { id: self.id@, slug: self.slug@, password: self.password@, now: self.now }
    }
}

impl FreshView {
    /// Whether the values have the shape of drawn ones: an identifier of 64 hexadecimal
    /// digits, a slug and a password of 10 each.
    pub open spec fn well_formed(self) -> bool {
        &&& self.id.len() == ID_LENGTH
        &&& is_hex(self.id)
        &&& self.slug.len() == GENERATED_LENGTH
        &&& is_hex(self.slug)
        &&& self.password.len() == GENERATED_LENGTH
        &&& is_hex(self.password)
    }
}

impl Fresh {
    /// Draws an identifier, a slug and a password at random, and reads the clock.
    ///
    /// Which values come back is left open; their shape is not.
    pub fn draw() -> (r: Fresh)
        ensures
            r@.well_formed(),
    {
        let id = random_id();
        let slug_source = random_id();
        let password_source = random_id();
        let slug = first_chars(slug_source.as_str(), GENERATED_LENGTH);
        let password = first_chars(password_source.as_str(), GENERATED_LENGTH);
        let now = unix_epoch_timestamp();
        assert(is_hex(slug@)) by {
            assert forall|i: int| 0 <= i < slug@.len() implies crate::slug::is_hex_digit(
                #[trigger] slug@[i],
            ) by {
                assert(slug@[i] == slug_source@[i]);
            }
        }
        assert(is_hex(password@)) by {
            assert forall|i: int| 0 <= i < password@.len() implies crate::slug::is_hex_digit(
                #[trigger] password@[i],
            ) by {
                assert(password@[i] == password_source@[i]);
            }
        }
        Fresh { id, slug, password, now }
    }
}

} // verus!

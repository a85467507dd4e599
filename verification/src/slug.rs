//! Slugs: the canonical lookup key of a post, and what a slug may hold.
use crate::model::{DatabaseError, Text};
use vstd::prelude::*;
use vstd::utf8::is_ascii_chars;

verus! {

/// The shortest slug that a post may be created under.
pub const SLUG_MIN: usize = 3;

/// The longest slug that a post may be created under.
pub const SLUG_MAX: usize = 250;

/// The Punycode form that `idna::punycode::encode_str` gives a text which holds a character
/// outside ASCII; `None` where the encoder reports an overflow.
pub uninterp spec fn punycode_of(input: Seq<char>) -> Option<Seq<char>>;

/// The Punycode form of a text of ASCII characters: the text itself, closed by the
/// delimiter `-` unless it is empty. The encoder refuses a text of more than `u32::MAX`
/// bytes.
pub open spec fn ascii_punycode(input: Text) -> Option<Text> {
    if input.len() > u32::MAX {
        None
    } else if input.len() == 0 {
        Some(input)
    } else {
        Some(input.push('-'))
    }
}

/// The Punycode form of a text. It never holds a character outside ASCII. Where the text
/// holds one, its form ends in the digit that stands for the last such character: it is
/// neither empty nor closed by a hyphen.
pub open spec fn punycode(input: Text) -> Option<Text> {
    if is_ascii_chars(input) {
        ascii_punycode(input)
    } else {
        match punycode_of(input) {
            Some(encoded) => if is_ascii_chars(encoded) && encoded.len() > 0 && encoded.last()
                != '-' {
                Some(encoded)
            } else {
                None
            },
            None => None,
        }
    }
}

/// A character with `A` to `Z` mapped to `a` to `z`.
pub open spec fn lowercase_char(c: char) -> char {
    if 'A' <= c <= 'Z' {
        ((c as u32) + 32) as char
    } else {
        c
    }
}

/// A text with `A` to `Z` mapped to `a` to `z`, and every other character as it is.
pub open spec fn ascii_lowercase(text: Text) -> Text {
    Seq::new(text.len(), |i: int| lowercase_char(text[i]))
}

/// A text without its last character, where that is a hyphen.
pub open spec fn without_trailing_hyphen(text: Text) -> Text {
    if text.len() > 0 && text.last() == '-' {
        text.drop_last()
    } else {
        text
    }
}

/// The longest canonical lookup key, in characters: what the encoder still takes, so that a
/// key can be normalized again.
pub const KEY_MAX: u32 = u32::MAX;

/// The canonical lookup key of a slug: its Punycode form, in lower case, without the one
/// trailing hyphen that the encoding may have added. `None` where the slug cannot be
/// encoded, and where the key would be longer than the encoder takes.
pub open spec fn normalized(slug: Text) -> Option<Text> {
    match punycode(slug) {
        Some(encoded) => {
            let key = without_trailing_hyphen(ascii_lowercase(encoded));
            if key.len() <= KEY_MAX {
                Some(key)
            } else {
                None
            }
        },
        None => None,
    }
}

/// Whether a text is a canonical lookup key: ASCII, without `A` to `Z`, and short enough
/// for the encoder.
pub open spec fn is_canonical(text: Text) -> bool {
    &&& is_ascii_chars(text)
    &&& text.len() <= KEY_MAX
    &&& forall|i: int| 0 <= i < text.len() ==> !('A' <= #[trigger] text[i] <= 'Z')
}

/// Calls `idna::punycode::encode_str`. Claimed of it: a text of ASCII characters comes back
/// unchanged but for the closing delimiter `-`, which an empty text does not get, and is
/// refused only where it is longer than `u32::MAX` bytes; any other text gives what
/// `punycode_of` names, which ends in the digit written for its last character outside
/// ASCII, so that it is neither empty nor closed by a hyphen; and the encoder writes ASCII
/// characters only.
#[verifier::external_body]
fn punycode_encode(input: &str) -> (r: Option<String>)
    ensures
        is_ascii_chars(input@) ==> (match r {
            Some(encoded) => ascii_punycode(input@) == Some(encoded@),
            None => ascii_punycode(input@) is None,
        }),
        !is_ascii_chars(input@) ==> (match r {
            Some(encoded) => punycode_of(input@) == Some(encoded@) && encoded@.len() > 0
                && encoded@.last() != '-',
            None => punycode_of(input@) is None,
        }),
        r matches Some(encoded) ==> is_ascii_chars(encoded@),
{
    idna::punycode::encode_str(input)
}

/// `str::to_ascii_lowercase` maps `A` to `Z` to `a` to `z` and leaves every other character
/// as it is.
pub assume_specification[ str::to_ascii_lowercase ](text: &str) -> (r: String)
    ensures
        r@ == ascii_lowercase(text@),
;

/// The canonical form of a text that is encoded already: in lower case, and without a
/// trailing hyphen.
pub fn canonical(encoded: &str) -> (r: String)
    ensures
        r@ == without_trailing_hyphen(ascii_lowercase(encoded@)),
{
    let lowered = encoded.to_ascii_lowercase();
    let n = lowered.as_str().unicode_len();
    if n > 0 && lowered.as_str().get_char(n - 1) == '-' {
        String::from_str(lowered.as_str().substring_char(0, n - 1))
    } else {
        lowered
    }
}

/// The canonical lookup key of `slug`, under which a post is stored and found.
///
/// Fails with [`DatabaseError::ValueError`] exactly where the slug cannot be encoded, or
/// has a key that could not be normalized again because it is longer than the encoder
/// takes.
pub fn normalize(slug: &str) -> (r: Result<String, DatabaseError>)
    ensures
        match r {
            Ok(key) => normalized(slug@) == Some(key@),
            Err(e) => e == DatabaseError::ValueError && normalized(slug@) is None,
        },
{
    match punycode_encode(slug) {
        None => Err(DatabaseError::ValueError),
        Some(encoded) => {
            let key = canonical(encoded.as_str());
            if key.as_str().unicode_len() > 0xffff_ffff {
                Err(DatabaseError::ValueError)
            } else {
                Ok(key)
            }
        },
    }
}

/// Whether the character class `[\w_\-.!\p{Extended_Pictographic}]` of the `regex` crate
/// holds a character outside ASCII.
pub uninterp spec fn class_holds(c: char) -> bool;

/// Whether a slug may hold an ASCII character: letters, digits, and `_`, `-`, `.`, `!`.
pub open spec fn is_ascii_slug_char(c: char) -> bool {
    ||| '0' <= c <= '9'
    ||| 'a' <= c <= 'z'
    ||| 'A' <= c <= 'Z'
    ||| c == '_'
    ||| c == '-'
    ||| c == '.'
    ||| c == '!'
}

/// Whether a slug may hold a character: a word character, one of `_`, `-`, `.`, `!`, or a
/// pictographic symbol.
pub open spec fn is_slug_char(c: char) -> bool {
    if c <= '\u{7f}' {
        is_ascii_slug_char(c)
    } else {
        class_holds(c)
    }
}

/// Whether a text is not empty and holds nothing but what a slug may hold.
pub open spec fn has_slug_charset(slug: Text) -> bool {
    slug.len() > 0 && forall|i: int| 0 <= i < slug.len() ==> is_slug_char(#[trigger] slug[i])
}

/// Whether a post may be created under a slug: 3 to 250 characters, all of them of the kind
/// that a slug may hold.
pub open spec fn valid_slug(slug: Text) -> bool {
    SLUG_MIN <= slug.len() <= SLUG_MAX && has_slug_charset(slug)
}

/// The pattern of the texts that hold nothing but what a slug may hold.
pub const SLUG_PATTERN: &'static str = "^[\\w\\_\\-\\.\\!\\p{Extended_Pictographic}]+$";

/// Matches a text against [`SLUG_PATTERN`] with `regex::Regex::is_match`. Claimed of it:
/// the pattern matches exactly the texts that are not empty and hold only characters of
/// its class; of ASCII, the class holds letters, digits and `_`, `-`, `.`, `!`; of the
/// rest, what `class_holds` names.
#[verifier::external_body]
fn matches_pattern(pattern: &str, text: &str) -> (r: bool)
    requires
        pattern@ == SLUG_PATTERN@,
    ensures
        r == (text@.len() > 0 && forall|i: int|
            0 <= i < text@.len() ==> (if #[trigger] text@[i] <= '\u{7f}' {
                is_ascii_slug_char(text@[i])
            } else {
                class_holds(text@[i])
            })),
{
    regex::Regex::new(pattern).unwrap().is_match(text)
}

/// Whether a post may be created under `slug`.
pub fn is_valid_slug(slug: &str) -> (r: bool)
    ensures
        r == valid_slug(slug@),
{
    let n = slug.unicode_len();
    if n > SLUG_MAX || n < SLUG_MIN {
        return false;
    }
    matches_pattern(SLUG_PATTERN, slug)
}

/// Whether a character is one of `0` to `9` and `a` to `f`.
pub open spec fn is_hex_digit(c: char) -> bool {
    ('0' <= c <= '9') || ('a' <= c <= 'f')
}

/// Whether a text holds nothing but the digits `0` to `9` and `a` to `f`.
pub open spec fn is_hex(text: Text) -> bool {
    forall|i: int| 0 <= i < text.len() ==> is_hex_digit(#[trigger] text[i])
}

/// A text of 3 to 250 hexadecimal digits is a slug under which a post may be created.
pub proof fn lemma_hex_is_valid_slug(text: Text)
    requires
        is_hex(text),
        SLUG_MIN <= text.len() <= SLUG_MAX,
    ensures
        valid_slug(text),
{
    assert forall|i: int| 0 <= i < text.len() implies is_slug_char(#[trigger] text[i]) by {
        assert(is_hex_digit(text[i]));
    }
}

/// The first `n` characters of a text, or all of it where it has fewer.
pub fn first_chars(text: &str, n: usize) -> (r: String)
    ensures
        r@ == text@.take(if n <= text@.len() {
            n as int
        } else {
            text@.len() as int
        }),
{
    let len = text.unicode_len();
    let end = if n <= len {
        n
    } else {
        len
    };
    String::from_str(text.substring_char(0, end))
}

/// A canonical lookup key is its own canonical lookup key.
pub proof fn lemma_canonical_is_fixed(key: Text)
    requires
        is_canonical(key),
    ensures
        normalized(key) == Some(key),
{
    if key.len() == 0 {
        assert(ascii_lowercase(key) =~= key);
    } else {
        let closed = key.push('-');
        assert(ascii_lowercase(closed) =~= closed);
        assert(closed.drop_last() =~= key);
    }
}

/// What normalization gives is a canonical lookup key: ASCII characters only, none of them
/// `A` to `Z`, and no more than the encoder takes.
pub proof fn lemma_normalized_is_canonical(slug: Text)
    requires
        normalized(slug) is Some,
    ensures
        is_canonical(normalized(slug).unwrap()),
{
    let encoded = punycode(slug).unwrap();
    assert(is_ascii_chars(encoded));
    let lowered = ascii_lowercase(encoded);
    assert forall|i: int| 0 <= i < lowered.len() implies '\0' <= #[trigger] lowered[i] <= '\u{7f}'
        && !('A' <= lowered[i] <= 'Z') by {
        assert('\0' <= encoded[i] <= '\u{7f}');
    }
}

/// Normalization is idempotent: normalizing a canonical lookup key gives that key again.
pub proof fn law_normalize_idempotent(slug: Text)
    requires
        normalized(slug) is Some,
    ensures
        normalized(normalized(slug).unwrap()) == normalized(slug),
{
    lemma_normalized_is_canonical(slug);
    lemma_canonical_is_fixed(normalized(slug).unwrap());
}

/// A slug that is not empty has a key that is not empty.
pub proof fn lemma_key_of_nonempty_slug(slug: Text)
    requires
        slug.len() > 0,
        normalized(slug) is Some,
    ensures
        normalized(slug).unwrap().len() > 0,
{
    let encoded = punycode(slug).unwrap();
    let lowered = ascii_lowercase(encoded);
    if is_ascii_chars(slug) {
        assert(encoded == slug.push('-'));
        assert(lowered.last() == '-');
    } else {
        assert(encoded.last() != '-');
        assert(lowered.last() == lowercase_char(encoded.last()));
    }
}

} // verus!

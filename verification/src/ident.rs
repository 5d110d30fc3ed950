//! Identifier policy: which strings may name an entity, and how fresh names
//! are drawn.

use vstd::prelude::*;
use vstd::utf8::*;

verus! {

/// Identifiers must be shorter than this many bytes.
pub const MAX_IDENTIFIER_BYTES: usize = 255;

/// An identifier is acceptable when it is non-empty, its UTF-8 encoding is
/// shorter than [`MAX_IDENTIFIER_BYTES`], and every character is ASCII.
pub open spec fn valid_identifier(s: Seq<char>) -> bool {
    &&& s.len() > 0
    &&& encode_utf8(s).len() < MAX_IDENTIFIER_BYTES
    &&& is_ascii_chars(s)
}

/// Decides whether `candidate` may name an entity. The answer depends on the
/// text alone, so callers can reject a bad identifier before touching a store.
pub fn validate(candidate: &str) -> (ok: bool)
    ensures
        ok == valid_identifier(candidate@),
{
    let byte_len: usize = candidate.as_bytes().len();
    byte_len > 0 && byte_len < MAX_IDENTIFIER_BYTES && candidate.is_ascii()
}

/// The number of symbols in a generated identifier.
pub const GENERATED_LENGTH: usize = 12;

/// The symbols generated identifiers are drawn from: letters, digits,
/// underscore and hyphen, all of which survive in a URL unescaped.
pub open spec fn is_safe_symbol(c: char) -> bool {
    ||| c == '_'
    ||| c == '-'
    ||| '0' <= c <= '9'
    ||| 'a' <= c <= 'z'
    ||| 'A' <= c <= 'Z'
}

/// A text made of `size` safe symbols.
pub open spec fn is_token(s: Seq<char>, size: nat) -> bool {
    &&& s.len() == size
    &&& forall|i: int| 0 <= i < s.len() ==> is_safe_symbol(#[trigger] s[i])
}

/// Draws `size` random symbols with `nanoid::format`, using nanoid's default
/// random source and its `SAFE` alphabet.
///
/// Trusted: nanoid keeps appending symbols of the alphabet it was given
/// until the text is `size` bytes long, so the result has exactly `size`
/// characters, each one of the 64 ASCII symbols of `SAFE`. Which symbols
/// come out is left open. A `size` of zero never returns, and one whose
/// eightfold overflows is miscomputed; both are excluded.
#[verifier::external_body]
fn random_token(size: usize) -> (token: String)
    requires
        0 < size,
        8 * size <= usize::MAX,
    ensures
        is_token(token@, size as nat),
{
    nanoid::format(nanoid::rngs::default, &nanoid::alphabet::SAFE, size)
}

/// Draws a fresh identifier: [`GENERATED_LENGTH`] random safe symbols. The
/// result is always acceptable to [`validate`]. It is not compared with the
/// identifiers already in use; a clash is left for the store to report.
pub fn generate() -> (id: String)
    ensures
        is_token(id@, GENERATED_LENGTH as nat),
        valid_identifier(id@),
{
    let id = random_token(GENERATED_LENGTH);
    proof {
        lemma_token_is_valid(id@, GENERATED_LENGTH as nat);
    }
    id
}

/// Every text of 1 to 254 safe symbols is an acceptable identifier.
pub proof fn lemma_token_is_valid(s: Seq<char>, size: nat)
    requires
        is_token(s, size),
        1 <= size <= 254,
    ensures
        valid_identifier(s),
{
    assert(is_ascii_chars(s)) by {
        assert forall|i: int| 0 <= i < s.len() implies '\0' <= #[trigger] s[i] <= '\u{7f}' by {
            assert(is_safe_symbol(s[i]));
        }
    }
    lemma_valid_identifier_by_chars(s);
}

/// An acceptable identifier is exactly an ASCII text of 1 to 254 characters:
/// for ASCII text the byte length and the character count coincide.
pub proof fn lemma_valid_identifier_by_chars(s: Seq<char>)
    ensures
        valid_identifier(s) <==> (1 <= s.len() <= 254 && is_ascii_chars(s)),
{
    if is_ascii_chars(s) {
        is_ascii_chars_encode_utf8(s);
    }
}

} // verus!

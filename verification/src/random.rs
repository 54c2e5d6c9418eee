//! Random identifiers and secrets.
use vstd::prelude::*;

verus! {

/// Characters of the URL-safe base64 alphabet.
pub open spec fn is_base64url(c: char) -> bool {
    'A' <= c <= 'Z' || 'a' <= c <= 'z' || '0' <= c <= '9' || c == '-' || c == '_'
}

/// Whether a text can be the unpadded URL-safe base64 form of a row of bytes.
pub open spec fn encodes_bytes(text: Seq<char>, byte_count: int) -> bool {
    &&& text.len() == (4 * byte_count + 2) / 3
    &&& forall|i: int| 0 <= i < text.len() ==> is_base64url(#[trigger] text[i])
}

/// [`openidconnect::CsrfToken::new_random_len`]: random bytes in unpadded URL-safe base64. Which
/// bytes is left to chance; only the form is claimed.
#[verifier::external_body]
pub(crate) fn random_token(byte_count: u32) -> (token: String)
    ensures
        encodes_bytes(token@, byte_count as int),
{
    openidconnect::CsrfToken::new_random_len(byte_count).secret().to_owned()
}

/// [`openidconnect::Nonce::new_random`]: sixteen random bytes in unpadded URL-safe base64. Which
/// bytes is left to chance; only the form is claimed.
#[verifier::external_body]
pub(crate) fn random_nonce() -> (nonce: String)
    ensures
        encodes_bytes(nonce@, 16),
{
    openidconnect::Nonce::new_random().secret().to_owned()
}

/// The verifier of [`openidconnect::PkceCodeChallenge::new_random_sha256`]: thirty-two random
/// bytes in unpadded URL-safe base64. Which bytes is left to chance; only the form is claimed.
#[verifier::external_body]
pub(crate) fn random_pkce_verifier() -> (verifier: String)
    ensures
        encodes_bytes(verifier@, 32),
{
    openidconnect::PkceCodeChallenge::new_random_sha256().1.secret().to_owned()
}

/// Four characters stand for three bytes, and the rest of the bytes for two or three: so sixteen
/// bytes have 22 characters and thirty-two have 43, all of them letters, digits, hyphens and
/// underscores.
pub proof fn lengths_of_random_texts(text: Seq<char>, i: int)
    ensures
        encodes_bytes(text, 16) ==> text.len() == 22,
        encodes_bytes(text, 32) ==> text.len() == 43,
        (encodes_bytes(text, 16) || encodes_bytes(text, 32)) && 0 <= i < text.len() ==> 'A' <= text[i]
            <= 'Z' || 'a' <= text[i] <= 'z' || '0' <= text[i] <= '9' || text[i] == '-' || text[i]
            == '_',
{
    if 0 <= i < text.len() && (encodes_bytes(text, 16) || encodes_bytes(text, 32)) {
        assert(is_base64url(text[i]));
    }
}

} // verus!

//! Standard base64 with padding.
use vstd::prelude::*;

verus! {

/// The text that `base64` encodes bytes to with its standard alphabet and padding.
pub uninterp spec fn encoded(bytes: Seq<u8>) -> Seq<char>;

/// The bytes that `base64` decodes a text to with its standard alphabet and padding; none where
/// the text is not such an encoding.
pub uninterp spec fn decoded(text: Seq<char>) -> Option<Seq<u8>>;

/// As many bytes as are encoded at once; their text stays within what a buffer can hold.
pub const MAX_ENCODED_BYTES: usize = 0x2fff_ffff;

/// `Engine::encode` of `base64::engine::general_purpose::STANDARD`. What it writes, it reads back.
#[verifier::external_body]
pub(crate) fn encode(bytes: &[u8]) -> (text: String)
    requires
        bytes@.len() <= MAX_ENCODED_BYTES,
    ensures
        text@ == encoded(bytes@),
        decoded(text@) == Some(bytes@),
{
    base64::Engine::encode(&base64::engine::general_purpose::STANDARD, bytes)
}

/// `Engine::decode` of `base64::engine::general_purpose::STANDARD`, without its error.
#[verifier::external_body]
pub(crate) fn decode(text: &str) -> (bytes: Option<Vec<u8>>)
    ensures
        bytes is Some <==> decoded(text@) is Some,
        bytes matches Some(b) ==> decoded(text@) == Some(b@),
{
    base64::Engine::decode(&base64::engine::general_purpose::STANDARD, text).ok()
}

} // verus!

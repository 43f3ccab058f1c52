//! Base64 in the standard alphabet, as the `base64` crate decodes it.

use vstd::prelude::*;

verus! {

/// `base64::DecodeError`: why a text is no Base64. It is carried as it is and
/// never looked into.
#[verifier::external_type_specification]
#[verifier::external_body]
pub struct ExDecodeError(base64::DecodeError);

/// The bytes that `text` stands for in Base64 with the standard alphabet
/// (`A`-`Z`, `a`-`z`, `0`-`9`, `+`, `/`; `=` may pad the end), or `None`
/// where `text` stands for none: what `base64::decode_config_slice` makes of
/// `text` with `base64::STANDARD`.
pub uninterp spec fn base64_decoding(text: Seq<u8>) -> Option<Seq<u8>>;

/// The room that decoding a text of `len` bytes may take: three bytes for
/// every four of text, the last group counted in full.
pub open spec fn decoding_room(len: nat) -> nat {
    (len + 3) / 4 * 3
}

/// `base64::decode_config_slice` with `base64::STANDARD`.
///
/// The call decodes `text` into the front of `room` and returns how many bytes
/// it wrote, or fails where `text` is not Base64 in the standard alphabet. It
/// panics when `room` is too small; the crate documents `decoding_room` of the
/// text's length as always enough, and that is what is asked of the caller.
/// Nothing is claimed of `room` behind the decoded bytes, nor of any of it
/// after a failure.
#[verifier::external_body]
pub(crate) fn decode_into(text: &[u8], room: &mut [u8]) -> (outcome: Result<
    usize,
    base64::DecodeError,
>)
    requires
        decoding_room(text@.len()) <= old(room)@.len(),
    ensures
        final(room)@.len() == old(room)@.len(),
        match outcome {
            Ok(count) => count <= final(room)@.len() && base64_decoding(text@) == Some(
                final(room)@.subrange(0, count as int),
            ),
            Err(_) => base64_decoding(text@) is None,
        },
{
    base64::decode_config_slice(text, base64::STANDARD, room)
}

} // verus!

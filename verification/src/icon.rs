//! Session icons as text.

use base64::Engine;
use vstd::prelude::*;

verus! {

/// The standard base64 text of a byte string, with padding.
pub uninterp spec fn base64_standard(data: Seq<u8>) -> Seq<char>;

/// Whether a byte string of `len` bytes is short enough for the length of
/// its base64 text to be computed.
pub open spec fn encodable(len: nat) -> bool {
    4 * (len / 3) + 4 <= usize::MAX
}

/// Calls `encode` of `base64::engine::general_purpose::STANDARD`. The
/// contract names the text and leaves out the inputs on which the length of
/// the text would not fit in a `usize`, since the call does not return on
/// those.
#[verifier::external_body]
fn encode_base64(data: &[u8]) -> (text: String)
    requires
        encodable(data@.len()),
    ensures
        text@ == base64_standard(data@),
{
    base64::engine::general_purpose::STANDARD.encode(data)
}

/// The text of an icon's pixel data, or nothing where the data is too long
/// to be encoded.
pub fn encode_icon(pixels: &[u8]) -> (text: Option<String>)
    ensures
        match text {
            Some(encoded) => encodable(pixels@.len()) && encoded@ == base64_standard(pixels@),
            None => !encodable(pixels@.len()),
        },
{
    if pixels.len() / 3 <= (usize::MAX - 4) / 4 {
        Some(encode_base64(pixels))
    } else {
        None
    }
}

/// Whether the process with identifier `pid` has an icon. The identifier
/// zero stands for the system's own sounds, which have none.
pub fn has_icon(pid: u32) -> (r: bool)
    ensures
        r == (pid != 0),
{
    pid != 0
}

/// The icon of the process `pid` as text, given the pixel data that could
/// be read of it.
pub fn get_process_icon(pid: u32, pixels: Option<Vec<u8>>) -> (text: Option<String>)
    ensures
        match text {
            Some(encoded) => {
                &&& pid != 0
                &&& pixels is Some
                &&& encodable(pixels->0@.len())
                &&& encoded@ == base64_standard(pixels->0@)
            },
            None => pid == 0 || pixels is None || !encodable(pixels->0@.len()),
        },
{
    if !has_icon(pid) {
        return None;
    }
    match pixels {
        Some(data) => encode_icon(data.as_slice()),
        None => None,
    }
}

} // verus!

//! Cached-screenshot encoding: the engine hands back raw PNG bytes, and
//! callers receive them as a data URL.

use vstd::prelude::*;
use vstd::string::*;
use base64::Engine;
use crate::errors::MaaError;

verus! {

/// The standard base64 rendering (with padding) of a byte sequence.
pub uninterp spec fn base64_of(bytes: Seq<u8>) -> Seq<char>;

/// Relies on base64's `STANDARD` engine `encode`: the standard alphabet
/// with padding, four output characters for every three input bytes,
/// deterministic in the input bytes alone.
#[verifier::external_body]
fn base64_encode(data: &Vec<u8>) -> (r: String)
    requires
        4 * ((data@.len() + 2) / 3) <= usize::MAX,
    ensures
        r@ == base64_of(data@),
        r@.len() == 4 * ((data@.len() + 2) / 3),
{
    base64::engine::general_purpose::STANDARD.encode(data.as_slice())
}

/// Renders a cached screenshot as a `data:` URL. An empty buffer means
/// the engine had no image and is rejected.
pub fn encode_cached_image(data: &Vec<u8>) -> (r: Result<String, MaaError>)
    requires
        data@.len() <= 0x3000_0000,
    ensures
        data@.len() == 0 ==> (r matches Err(e) && e is ProtocolMismatch),
        data@.len() > 0 ==> (r matches Ok(s) && s@ == "data:image/png;base64,"@ + base64_of(
            data@,
        )),
{
    if data.len() == 0 {
        return Err(
            MaaError::ProtocolMismatch {
                agent_index: None,
                detail: String::from_str("no image data available"),
            },
        );
    }
    let mut out = String::from_str("data:image/png;base64,");
    let encoded = base64_encode(data);
    out.append(encoded.as_str());
    Ok(out)
}

} // verus!

//! The engine version gate: the loaded engine's version string, with any
//! leading `v` removed, must reach the minimum this crate supports.

use vstd::prelude::*;
use vstd::string::*;
use crate::errors::MaaError;
use crate::paths::{strip_v, strip_v_prefix};
use crate::text::str_eq;
use crate::types::VersionCheckResult;

verus! {

/// Whether the first semantic version reaches the second, by semantic
/// versioning's ordering (pre-release identifiers included): `None` when
/// the second does not parse, `Some(false)` when the first does not.
pub uninterp spec fn semver_at_least(current: Seq<char>, minimum: Seq<char>) -> Option<bool>;

/// Relies on `semver::Version::parse` and the `Ord` of `semver::Version`:
/// both are pure functions of the version strings alone, so the combined
/// comparison is named `semver_at_least` and trusted as a unit.
#[verifier::external_body]
fn version_at_least(current: &str, minimum: &str) -> (r: Option<bool>)
    ensures
        r == semver_at_least(current@, minimum@),
{
    let m = match semver::Version::parse(minimum) {
        Ok(v) => v,
        Err(_) => {
            return None;
        },
    };
    let ok = match semver::Version::parse(current) {
        Ok(c) => c >= m,
        Err(_) => false,
    };
    Some(ok)
}

/// The minimum engine version this crate supports, without its `v`
/// prefix.
pub fn min_maafw_version() -> (r: String)
    ensures
        r@ == "5.5.0-beta.1"@,
{
    String::from_str("5.5.0-beta.1")
}

/// Checks the loaded engine version against the supported minimum. The
/// placeholder of an unloaded engine is rejected; a current version that
/// does not parse merely counts as incompatible.
pub fn maa_check_version(current: &String) -> (r: Result<VersionCheckResult, MaaError>)
    ensures
        (current@ == "unknown"@ || current@.len() == 0) ==> (r matches Err(e)
            && e is NotInitialized),
        !(current@ == "unknown"@ || current@.len() == 0) && semver_at_least(
            strip_v(current@),
            "5.5.0-beta.1"@,
        ) is None ==> (r matches Err(e) && e is ProtocolMismatch),
        !(current@ == "unknown"@ || current@.len() == 0) ==> (semver_at_least(
            strip_v(current@),
            "5.5.0-beta.1"@,
        ) matches Some(b) ==> (r matches Ok(v) && {
            &&& v.current@ == current@
            &&& v.minimum@ == seq!['v'] + "5.5.0-beta.1"@
            &&& v.is_compatible == b
        })),
{
    if str_eq(current.as_str(), "unknown") || current.as_str().unicode_len() == 0 {
        return Err(MaaError::NotInitialized);
    }
    let current_clean = strip_v_prefix(current.as_str());
    let minimum = min_maafw_version();
    match version_at_least(current_clean.as_str(), minimum.as_str()) {
        None => Err(
            MaaError::ProtocolMismatch {
                agent_index: None,
                detail: String::from_str("minimum version does not parse"),
            },
        ),
        Some(is_compatible) => {
            let mut min_tagged = String::new();
            crate::text::push_char(&mut min_tagged, 'v');
            min_tagged.append(minimum.as_str());
            Ok(
                VersionCheckResult {
                    current: current.clone(),
                    minimum: min_tagged,
                    is_compatible,
                },
            )
        },
    }
}

} // verus!

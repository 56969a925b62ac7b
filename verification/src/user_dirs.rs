//! Lookup of the per-user config directory.
//!
//! The answer depends on the environment, so nothing is claimed about it:
//! callers must cope with every outcome.

use vstd::prelude::*;

verus! {

/// Calls `dirs::config_dir` and renders the path, if any, as text.
/// Nothing is claimed about the outcome.
#[verifier::external_body]
pub(crate) fn config_dir() -> Option<String> {
    match dirs::config_dir() {
        Some(p) => Some(p.to_string_lossy().into_owned()),
        None => None,
    }
}

} // verus!

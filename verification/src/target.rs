//! The platform family a binary is compiled for.

use vstd::prelude::*;

verus! {

/// The operating-system family of the build target.
///
/// This is what the binary was produced for, which may differ from the
/// system it happens to run on; callers pass it explicitly to every helper
/// whose answer is fixed at build time.
#[derive(Clone, Copy, Debug, PartialEq, Eq, Structural)]
pub enum BuildTarget {
    Windows,
    MacOs,
    Linux,
    /// Any target outside the three known families.
    Other,
}

} // verus!

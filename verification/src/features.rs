//! Fixed capability flags per build target.

use vstd::prelude::*;
use crate::target::BuildTarget;

verus! {

/// Capability queries; every answer is a fixed table keyed by build target.
pub struct FeatureCheck;

impl FeatureCheck {
    /// File-type association is available on Windows and macOS only.
    pub fn supports_file_association(target: BuildTarget) -> (supported: bool)
        ensures
            supported == (target == BuildTarget::Windows || target == BuildTarget::MacOs),
    {
        match target {
            BuildTarget::Windows | BuildTarget::MacOs => true,
            BuildTarget::Linux | BuildTarget::Other => false,
        }
    }

    /// A system tray is available on each of the three known families.
    pub fn supports_system_tray(target: BuildTarget) -> (supported: bool)
        ensures
            supported == (target != BuildTarget::Other),
    {
        match target {
            BuildTarget::Windows | BuildTarget::MacOs | BuildTarget::Linux => true,
            BuildTarget::Other => false,
        }
    }

    /// Global shortcuts are available on Windows and macOS only.
    pub fn supports_global_shortcuts(target: BuildTarget) -> (supported: bool)
        ensures
            supported == (target == BuildTarget::Windows || target == BuildTarget::MacOs),
    {
        match target {
            BuildTarget::Windows | BuildTarget::MacOs => true,
            BuildTarget::Linux | BuildTarget::Other => false,
        }
    }

    /// Basic notifications are available on every target.
    pub fn supports_notifications(target: BuildTarget) -> (supported: bool)
        ensures
            supported,
    {
        let _ = target;
        true
    }

    /// Dropping files onto the window is available on every target.
    pub fn supports_file_drop(target: BuildTarget) -> (supported: bool)
        ensures
            supported,
    {
        let _ = target;
        true
    }
}

} // verus!

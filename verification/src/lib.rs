//! Platform helpers for a desktop application backend: a snapshot of the
//! running platform, path and shortcut-label utilities keyed by build target,
//! and per-target capability flags.

pub mod features;
pub mod info;
pub mod paths;
pub mod target;
pub mod text;
pub mod user_dirs;
pub mod utils;

pub use features::FeatureCheck;
pub use info::PlatformInfo;
pub use target::BuildTarget;
pub use utils::PlatformUtils;

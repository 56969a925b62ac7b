//! A snapshot of the platform a program runs on.

use vstd::prelude::*;
use vstd::string::*;

verus! {

/// The human-readable label of an operating-system identifier: the three
/// known identifiers get their customary spelling, any other passes through.
pub open spec fn display_name_of(os: Seq<char>) -> Seq<char> {
    if os == "windows"@ {
        "Windows"@
    } else if os == "macos"@ {
        "macOS"@
    } else if os == "linux"@ {
        "Linux"@
    } else {
        os
    }
}

/// Operating system, CPU architecture and the user's standard directories,
/// as found at one moment. A directory the system could not resolve is
/// absent.
#[derive(Clone, Debug)]
pub struct PlatformInfo {
    pub os: String,
    pub arch: String,
    pub is_windows: bool,
    pub is_macos: bool,
    pub is_linux: bool,
    pub app_data_dir: Option<String>,
    pub documents_dir: Option<String>,
    pub downloads_dir: Option<String>,
    pub desktop_dir: Option<String>,
}

impl PlatformInfo {
    /// The three flags are functions of `os`: each says whether `os` is
    /// that system's identifier.
    pub open spec fn wf(&self) -> bool {
        &&& self.is_windows == (self.os@ == "windows"@)
        &&& self.is_macos == (self.os@ == "macos"@)
        &&& self.is_linux == (self.os@ == "linux"@)
    }

    /// No two of the three flags are set together.
    pub open spec fn at_most_one_flag(&self) -> bool {
        &&& !(self.is_windows && self.is_macos)
        &&& !(self.is_windows && self.is_linux)
        &&& !(self.is_macos && self.is_linux)
    }

    /// A snapshot made of the given identifiers and directories, with the
    /// flags derived from `os`.
    pub fn from_parts(
        os: String,
        arch: String,
        app_data_dir: Option<String>,
        documents_dir: Option<String>,
        downloads_dir: Option<String>,
        desktop_dir: Option<String>,
    ) -> (info: Self)
        ensures
            info.wf(),
            info.at_most_one_flag(),
            info.os == os,
            info.arch == arch,
            info.app_data_dir == app_data_dir,
            info.documents_dir == documents_dir,
            info.downloads_dir == downloads_dir,
            info.desktop_dir == desktop_dir,
    {
        let is_windows = os.as_str().eq("windows");
        let is_macos = os.as_str().eq("macos");
        let is_linux = os.as_str().eq("linux");
        let info = PlatformInfo {
            os,
            arch,
            is_windows,
            is_macos,
            is_linux,
            app_data_dir,
            documents_dir,
            downloads_dir,
            desktop_dir,
        };
        proof {
            lemma_os_flags_exclusive(info);
        }
        info
    }

    /// The human-readable name of the operating system.
    pub fn get_display_name(&self) -> (name: String)
        ensures
            name@ == display_name_of(self.os@),
    {
        let os = self.os.as_str();
        if os.eq("windows") {
            String::from_str("Windows")
        } else if os.eq("macos") {
            String::from_str("macOS")
        } else if os.eq("linux") {
            String::from_str("Linux")
        } else {
            self.os.clone()
        }
    }

    /// The name of the shortcut modifier key: `Cmd` exactly when the macOS
    /// flag is set, `Ctrl` otherwise.
    pub fn get_modifier_key_name(&self) -> (key: String)
        ensures
            key@ == (if self.is_macos { "Cmd"@ } else { "Ctrl"@ }),
            (key@ == "Cmd"@) == self.is_macos,
    {
        proof {
            reveal_strlit("Cmd");
            reveal_strlit("Ctrl");
            assert("Cmd"@.len() != "Ctrl"@.len());
        }
        if self.is_macos {
            String::from_str("Cmd")
        } else {
            String::from_str("Ctrl")
        }
    }

    /// The path separator: a backslash exactly when the Windows flag is
    /// set, a forward slash otherwise.
    pub fn get_path_separator(&self) -> (separator: char)
        ensures
            separator == (if self.is_windows { '\\' } else { '/' }),
            (separator == '\\') == self.is_windows,
    {
        if self.is_windows {
            '\\'
        } else {
            '/'
        }
    }

    /// Whether the operating system is one of the three known ones.
    pub fn is_supported(&self) -> (supported: bool)
        ensures
            supported == (self.is_windows || self.is_macos || self.is_linux),
    {
        self.is_windows || self.is_macos || self.is_linux
    }
}

/// The three operating-system identifiers are pairwise distinct, so for
/// every value of `os` at most one of the three flags of a well-formed
/// snapshot is set.
pub proof fn lemma_os_flags_exclusive(info: PlatformInfo)
    requires
        info.wf(),
    ensures
        info.at_most_one_flag(),
{
    reveal_strlit("windows");
    reveal_strlit("macos");
    reveal_strlit("linux");
    assert("windows"@.len() != "macos"@.len());
    assert("windows"@.len() != "linux"@.len());
    assert("macos"@[0] != "linux"@[0]);
}

/// A well-formed snapshot is supported exactly when its `os` is one of the
/// three known identifiers.
pub proof fn lemma_supported_iff_known_os(info: PlatformInfo)
    requires
        info.wf(),
    ensures
        (info.is_windows || info.is_macos || info.is_linux) == (info.os@ == "windows"@ || info.os@
            == "macos"@ || info.os@ == "linux"@),
{
}

} // verus!

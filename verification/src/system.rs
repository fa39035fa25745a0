//! The operating systems that a driver can be installed on, and what
//! differs between them: file names, path separators, download tags.

use vstd::prelude::*;
use crate::text::{ends_with, join2, join3, same};

verus! {

/// An operating system that is supported.
#[derive(Clone, Copy, Debug, PartialEq, Eq, Structural)]
pub enum Os {
    Linux,
    Macos,
    Windows,
}

/// The operating system with this name, if it is supported.
pub open spec fn os_named(name: Seq<char>) -> Option<Os> {
    if name == "linux"@ {
        Some(Os::Linux)
    } else if name == "macos"@ {
        Some(Os::Macos)
    } else if name == "windows"@ {
        Some(Os::Windows)
    } else {
        None
    }
}

/// The operating system with this name, if it is supported.
pub fn parse_os(name: &str) -> (r: Option<Os>)
    ensures
        r == os_named(name@),
{
    if same(name, "linux") {
        Some(Os::Linux)
    } else if same(name, "macos") {
        Some(Os::Macos)
    } else if same(name, "windows") {
        Some(Os::Windows)
    } else {
        None
    }
}

/// `dir` and `name` as one path: joined by `separator` unless `dir` is empty
/// or ends with it already.
pub open spec fn joined(dir: Seq<char>, separator: Seq<char>, name: Seq<char>) -> Seq<char> {
    if dir.len() == 0 || separator.is_suffix_of(dir) {
        dir + name
    } else {
        dir + separator + name
    }
}

impl Os {
    /// The file name of the driver as it is downloaded.
    pub open spec fn spec_driver_file(self) -> Seq<char> {
        match self {
            Os::Windows => "chromedriver.exe"@,
            _ => "chromedriver"@,
        }
    }

    /// The file name of the patched driver.
    pub open spec fn spec_patched_file(self) -> Seq<char> {
        match self {
            Os::Windows => "chromedriver_PATCHED.exe"@,
            _ => "chromedriver_PATCHED"@,
        }
    }

    /// What separates a directory from a file name.
    pub open spec fn spec_separator(self) -> Seq<char> {
        match self {
            Os::Windows => "\\"@,
            _ => "/"@,
        }
    }

    /// The tag under which the catalog lists downloads for this system.
    pub open spec fn spec_platform_tag(self, arm: bool) -> Seq<char> {
        match self {
            Os::Linux => "linux64"@,
            Os::Macos => if arm {
                "mac-arm64"@
            } else {
                "mac-x64"@
            },
            Os::Windows => "win64"@,
        }
    }

    /// The path of a file in a directory.
    pub open spec fn spec_path(self, dir: Seq<char>, name: Seq<char>) -> Seq<char> {
        joined(dir, self.spec_separator(), name)
    }

    /// The file name of the driver as it is downloaded.
    pub fn driver_file(self) -> (r: String)
        ensures
            r@ == self.spec_driver_file(),
    {
        match self {
            Os::Windows => String::from_str("chromedriver.exe"),
            _ => String::from_str("chromedriver"),
        }
    }

    /// The file name of the patched driver.
    pub fn patched_file(self) -> (r: String)
        ensures
            r@ == self.spec_patched_file(),
    {
        match self {
            Os::Windows => String::from_str("chromedriver_PATCHED.exe"),
            _ => String::from_str("chromedriver_PATCHED"),
        }
    }

    /// What separates a directory from a file name.
    pub fn separator(self) -> (r: String)
        ensures
            r@ == self.spec_separator(),
    {
        match self {
            Os::Windows => String::from_str("\\"),
            _ => String::from_str("/"),
        }
    }

    /// The tag under which the catalog lists downloads for this system;
    /// `arm` says whether the machine is a 64-bit ARM.
    pub fn platform_tag(self, arm: bool) -> (r: String)
        ensures
            r@ == self.spec_platform_tag(arm),
    {
        match self {
            Os::Linux => String::from_str("linux64"),
            Os::Macos => if arm {
                String::from_str("mac-arm64")
            } else {
                String::from_str("mac-x64")
            },
            Os::Windows => String::from_str("win64"),
        }
    }

    /// The path of a file in a directory.
    pub fn path(self, dir: &str, name: &str) -> (r: String)
        ensures
            r@ == self.spec_path(dir@, name@),
    {
        let separator = self.separator();
        if dir.unicode_len() == 0 || ends_with(dir, separator.as_str()) {
            join2(dir, name)
        } else {
            join3(dir, separator.as_str(), name)
        }
    }
}

} // verus!

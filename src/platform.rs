use vstd::prelude::*;

use crate::text::str_eq;

verus! {

/// The operating system and architecture pairs that compiler builds exist for.
#[derive(Debug, Clone, Copy, PartialEq, Eq, Structural)]
pub enum Platform {
    WindowsAmd64,
    LinuxAmd64,
    MacOSAmd64,
}

impl Platform {
    /// The key that names this platform in build manifests and download URLs.
    pub open spec fn key(self) -> Seq<char> {
        match self {
            Platform::LinuxAmd64 => "linux-amd64"@,
            Platform::WindowsAmd64 => "windows-amd64"@,
            Platform::MacOSAmd64 => "macos-amd64"@,
        }
    }

    pub fn to_str(&self) -> (r: &'static str)
        ensures
            r@ == self.key(),
    {
        match self {
            Platform::LinuxAmd64 => "linux-amd64",
            Platform::WindowsAmd64 => "windows-amd64",
            Platform::MacOSAmd64 => "macos-amd64",
        }
    }

    /// The platform for an operating system and architecture as Rust names
    /// them (`std::env::consts::OS` and `ARCH`).
    pub open spec fn spec_from_target(os: Seq<char>, arch: Seq<char>) -> Option<Platform> {
        if arch != "x86_64"@ {
            None
        } else if os == "linux"@ {
            Some(Platform::LinuxAmd64)
        } else if os == "windows"@ {
            Some(Platform::WindowsAmd64)
        } else if os == "macos"@ {
            Some(Platform::MacOSAmd64)
        } else {
            None
        }
    }

    pub fn from_target(os: &str, arch: &str) -> (r: Option<Platform>)
        ensures
            r == Self::spec_from_target(os@, arch@),
    {
        if !str_eq(arch, "x86_64") {
            None
        } else if str_eq(os, "linux") {
            Some(Platform::LinuxAmd64)
        } else if str_eq(os, "windows") {
            Some(Platform::WindowsAmd64)
        } else if str_eq(os, "macos") {
            Some(Platform::MacOSAmd64)
        } else {
            None
        }
    }
}

} // verus!

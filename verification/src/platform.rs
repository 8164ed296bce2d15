//! The running platform, and the OS tag that a rule entry may carry.

use vstd::prelude::*;

verus! {

/// The platform the process runs on, decided once at startup and passed
/// explicitly wherever behaviour depends on it.
#[derive(Clone, Copy, Debug, PartialEq, Eq, Structural)]
pub enum Platform {
    Windows,
    MacOS,
    Linux,
}

impl Platform {
    /// Whether this platform is the one identified as macOS-equivalent.
    pub open spec fn spec_is_macos(self) -> bool {
        self is MacOS
    }

    #[verifier::when_used_as_spec(spec_is_macos)]
    pub fn is_macos(self) -> (r: bool)
        ensures
            r == self.spec_is_macos(),
    {
        match self {
            Platform::MacOS => true,
            _ => false,
        }
    }
}

/// The identifier string reported for a platform.
pub open spec fn platform_id_view(p: Platform) -> Seq<char> {
    match p {
        Platform::MacOS => "darwin"@,
        Platform::Windows => "win32"@,
        Platform::Linux => "linux"@,
    }
}

/// The platform identifier handed to the presentation layer:
/// `"darwin"`, `"win32"` or `"linux"`.
pub fn get_platform(current: Platform) -> (r: String)
    ensures
        r@ == platform_id_view(current),
{
    match current {
        Platform::MacOS => String::from_str("darwin"),
        Platform::Windows => String::from_str("win32"),
        Platform::Linux => String::from_str("linux"),
    }
}

/// OS tag that a configuration entry may carry: such an entry stands for the
/// whole OS rather than one application.
#[derive(Clone, Copy, Debug, PartialEq, Eq, Structural)]
pub enum OsType {
    Windows,
    MacOS,
}

/// The display name of an OS tag.
pub open spec fn os_display_name_view(os: OsType) -> Seq<char> {
    match os {
        OsType::Windows => "Windows"@,
        OsType::MacOS => "macOS"@,
    }
}

impl OsType {
    /// The display name shown for an entry carrying this tag.
    pub fn display_name(&self) -> (r: &'static str)
        ensures
            r@ == os_display_name_view(*self),
    {
        match self {
            OsType::Windows => "Windows",
            OsType::MacOS => "macOS",
        }
    }

    /// Whether this tag names the given running platform.
    pub open spec fn spec_is_current_platform(&self, current: Platform) -> bool {
        match self {
            OsType::Windows => current is Windows,
            OsType::MacOS => current is MacOS,
        }
    }

    #[verifier::when_used_as_spec(spec_is_current_platform)]
    pub fn is_current_platform(&self, current: Platform) -> (r: bool)
        ensures
            r == self.spec_is_current_platform(current),
    {
        match self {
            OsType::Windows => matches!(current, Platform::Windows),
            OsType::MacOS => matches!(current, Platform::MacOS),
        }
    }
}

} // verus!

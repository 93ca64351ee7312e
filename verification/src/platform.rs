use vstd::prelude::*;

use crate::text::str_eq;

verus! {

/// The operating-system family whose native tools carry out a change.
#[derive(Clone, Copy, Debug, PartialEq, Eq, Structural)]
pub enum Platform {
    Linux,
    Windows,
    MacOs,
    /// Any other system: every verb that changes the host is unsupported.
    Other,
}

impl Platform {
    /// The name under which the family is known.
    pub open spec fn name_spec(self) -> Seq<char> {
        match self {
            Platform::Linux => "linux"@,
            Platform::Windows => "windows"@,
            Platform::MacOs => "macos"@,
            Platform::Other => "unknown"@,
        }
    }

    /// The family that `name` stands for; a name that is none of `linux`,
    /// `windows` and `macos` stands for `Other`.
    pub open spec fn from_name_spec(name: Seq<char>) -> Platform {
        if name == "linux"@ {
            Platform::Linux
        } else if name == "windows"@ {
            Platform::Windows
        } else if name == "macos"@ {
            Platform::MacOs
        } else {
            Platform::Other
        }
    }

    /// The name of the family, which `from_name` reads back as the family.
    pub fn name(self) -> (n: &'static str)
        ensures
            n@ == self.name_spec(),
            Self::from_name_spec(n@) == self,
    {
        proof {
            lemma_name_round_trip(self);
        }
        match self {
            Platform::Linux => "linux",
            Platform::Windows => "windows",
            Platform::MacOs => "macos",
            Platform::Other => "unknown",
        }
    }

    /// The family that `name` stands for.
    pub fn from_name(name: &str) -> (p: Platform)
        ensures
            p == Self::from_name_spec(name@),
    {
        if str_eq(name, "linux") {
            Platform::Linux
        } else if str_eq(name, "windows") {
            Platform::Windows
        } else if str_eq(name, "macos") {
            Platform::MacOs
        } else {
            Platform::Other
        }
    }
}

/// Whether `platform` is the Linux family.
pub fn is_linux(platform: Platform) -> (r: bool)
    ensures
        r == (platform == Platform::Linux),
{
    platform == Platform::Linux
}

/// Whether `platform` is the Windows family.
pub fn is_windows(platform: Platform) -> (r: bool)
    ensures
        r == (platform == Platform::Windows),
{
    platform == Platform::Windows
}

/// Whether `platform` is the macOS family.
pub fn is_macos(platform: Platform) -> (r: bool)
    ensures
        r == (platform == Platform::MacOs),
{
    platform == Platform::MacOs
}

/// A family's name stands for that family.
pub proof fn lemma_name_round_trip(platform: Platform)
    ensures
        Platform::from_name_spec(platform.name_spec()) == platform,
{
    reveal_strlit("linux");
    reveal_strlit("windows");
    reveal_strlit("macos");
    reveal_strlit("unknown");
    match platform {
        Platform::Linux => {},
        Platform::Windows => {
            assert("windows"@[0] != "linux"@[0]);
        },
        Platform::MacOs => {
            assert("macos"@[0] != "linux"@[0]);
            assert("macos"@[0] != "windows"@[0]);
        },
        Platform::Other => {
            assert("unknown"@[0] != "linux"@[0]);
            assert("unknown"@[0] != "windows"@[0]);
            assert("unknown"@[0] != "macos"@[0]);
        },
    }
}

} // verus!

//! The operating systems that qmpo tells apart.

use vstd::prelude::*;

use crate::text::text_eq;

verus! {

/// The operating systems on which qmpo opens directories and registers itself.
#[derive(Clone, Copy, Debug, PartialEq, Eq, Structural)]
pub enum Platform {
    Windows,
    MacOs,
    Linux,
    /// Any other system: nothing can be opened or registered there.
    Other,
}

impl Platform {
    /// The platform that a name of the running system stands for.
    pub open spec fn named(name: Seq<char>) -> Platform {
        if name == "windows"@ {
            Platform::Windows
        } else if name == "macos"@ {
            Platform::MacOs
        } else if name == "linux"@ {
            Platform::Linux
        } else {
            Platform::Other
        }
    }

    /// Reads the platform from the name of the running system, as std gives it:
    /// `windows`, `macos`, `linux`, or any other name.
    pub fn from_os_name(name: &str) -> (platform: Platform)
        ensures
            platform == Platform::named(name@),
    {
        if text_eq(name, "windows") {
            Platform::Windows
        } else if text_eq(name, "macos") {
            Platform::MacOs
        } else if text_eq(name, "linux") {
            Platform::Linux
        } else {
            Platform::Other
        }
    }
}

} // verus!

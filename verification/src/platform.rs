//! The operating systems the native engine runs on.

use vstd::prelude::*;

verus! {

/// The operating system a program was built for.
#[derive(Debug, Clone, Copy, PartialEq, Eq, Structural)]
pub enum Platform {
    MacOs,
    Ios,
    Windows,
    Linux,
    Dragonfly,
    FreeBsd,
    NetBsd,
    OpenBsd,
    Android,
    /// Any system that is none of the above.
    Other,
}

impl Platform {
    /// Linux and the BSDs, where windows live on X11 or Wayland.
    pub open spec fn unix_desktop(self) -> bool {
        self is Linux || self is Dragonfly || self is FreeBsd || self is NetBsd || self is OpenBsd
    }

    /// Whether the native engine can hand control back from its pump.
    pub open spec fn can_return_from_pump(self) -> bool {
        !(self is Ios)
    }

    pub fn is_unix_desktop(self) -> (unix: bool)
        ensures
            unix == self.unix_desktop(),
    {
        match self {
            Platform::Linux
            | Platform::Dragonfly
            | Platform::FreeBsd
            | Platform::NetBsd
            | Platform::OpenBsd => true,
            _ => false,
        }
    }
}

} // verus!

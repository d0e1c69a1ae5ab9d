//! The main window as the commands see it.

use vstd::prelude::*;

verus! {

/// The name under which the host keeps the main window.
pub const MAIN_WINDOW: &'static str = "main";

/// What one look at the main window gave.
#[derive(Clone, Copy, Debug, PartialEq, Eq, Structural)]
pub enum WindowProbe {
    /// The host has no window under the main window's name.
    Missing,
    /// The window is there, but the host could not say whether it is fullscreen.
    Unreadable,
    /// The window is there and the host gave its fullscreen flag.
    Known(bool),
}

impl WindowProbe {
    /// Whether there is a window to act on.
    pub open spec fn present(self) -> bool {
        !(self is Missing)
    }

    /// The fullscreen flag that the commands go by: the one the host gave, and
    /// `false` wherever it gave none. A failed reading is not an error to the
    /// commands; it counts as "not fullscreen".
    pub open spec fn flag(self) -> bool {
        self == WindowProbe::Known(true)
    }

    /// What the next look at the window gives once the host has carried out
    /// `request`: the requested flag, where a state was requested of a window
    /// that is there, and otherwise what this look gave.
    pub open spec fn granted(self, request: Option<bool>) -> WindowProbe {
        match request {
            Some(on) if self.present() => WindowProbe::Known(on),
            _ => self,
        }
    }

    /// Whether there is a window to act on.
    pub fn is_present(&self) -> (found: bool)
        ensures
            found == self.present(),
    {
        match self {
            WindowProbe::Missing => false,
            _ => true,
        }
    }

    /// The fullscreen flag that the commands go by, `false` standing in for a
    /// reading that failed or a window that is missing.
    pub fn flag_or_default(&self) -> (flag: bool)
        ensures
            flag == self.flag(),
    {
        match self {
            WindowProbe::Known(flag) => *flag,
            _ => false,
        }
    }
}

} // verus!

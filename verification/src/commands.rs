//! The fullscreen query and the fullscreen toggle.

use crate::window::WindowProbe;
use vstd::prelude::*;

verus! {

/// One step of the toggle command: what to ask of the host, and what to answer
/// the caller.
#[derive(Clone, Copy, Debug, PartialEq, Eq)]
pub struct Toggle {
    /// The fullscreen state to request of the host, or `None` where there is no
    /// window to ask it of.
    pub request: Option<bool>,
    /// The command's answer. It is the state that was asked for, not a
    /// confirmed one: it is fixed before the request is made, so whether the
    /// host honours the request cannot change it.
    pub reply: bool,
}

/// The toggle's step for a given look at the window: with a window, ask for the
/// inverse of its flag and answer that inverse; with none, ask for nothing and
/// answer `false`.
pub open spec fn toggle_of(probe: WindowProbe) -> Toggle {
    if probe.present() {
        Toggle { request: Some(!probe.flag()), reply: !probe.flag() }
    } else {
        Toggle { request: None, reply: false }
    }
}

/// Answers whether the main window is fullscreen. A missing window and a
/// failed reading both answer `false`.
pub fn is_fullscreen(probe: WindowProbe) -> (shown: bool)
    ensures
        shown == probe.flag(),
        probe is Missing ==> !shown,
        probe is Unreadable ==> !shown,
        probe matches WindowProbe::Known(flag) ==> shown == flag,
{
    probe.flag_or_default()
}

/// Decides the toggle. With no window nothing is asked of the host and the
/// answer is `false`. With one, the inverse of its flag is both requested and
/// answered, a failed reading counting as "not fullscreen".
pub fn toggle_fullscreen(probe: WindowProbe) -> (step: Toggle)
    ensures
        step == toggle_of(probe),
        probe is Missing ==> step.request is None && !step.reply,
        probe.present() ==> step.request == Some(!probe.flag()) && step.reply == !probe.flag(),
        step.reply == (step.request == Some(true)),
{
    if probe.is_present() {
        let is_fullscreen = probe.flag_or_default();
        Toggle { request: Some(!is_fullscreen), reply: !is_fullscreen }
    } else {
        Toggle { request: None, reply: false }
    }
}

/// Toggling a window that is there answers the inverse of its flag, and once
/// the host has carried the request out, the query answers that inverse too.
/// (What the query answers for a look at the window is that look's `flag`.)
pub proof fn lemma_toggle_then_query(probe: WindowProbe)
    requires
        probe.present(),
    ensures
        toggle_of(probe).reply == !probe.flag(),
        probe.granted(toggle_of(probe).request).flag() == !probe.flag(),
        probe.granted(toggle_of(probe).request).flag() == toggle_of(probe).reply,
{
}

/// Two toggles in a row, each carried out by the host, leave the window's flag
/// as it was, and a missing window missing. With a window, the first answers
/// the inverse of the flag and the second answers the flag itself. A window
/// whose flag was known is then seen exactly as before; one whose flag could
/// not be read is treated as not fullscreen and ends up so.
pub proof fn lemma_toggle_round_trip(probe: WindowProbe)
    ensures
        ({
            let first = toggle_of(probe);
            let between = probe.granted(first.request);
            let second = toggle_of(between);
            let after = between.granted(second.request);
            &&& after.flag() == probe.flag()
            &&& after.present() == probe.present()
            &&& probe.present() ==> first.reply == !probe.flag() && second.reply == probe.flag()
            &&& !(probe is Unreadable) ==> after == probe
            &&& probe is Unreadable ==> after == WindowProbe::Known(false)
        }),
{
}

} // verus!

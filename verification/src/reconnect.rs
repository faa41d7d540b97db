//! The reconnect loop's decisions: which session events pace a retry through
//! the backoff policy, and which property-change notifications are for the
//! tracked lid property at all.

use vstd::prelude::*;
use crate::backoff::{Backoff, backoff_wf, spec_after_delay, spec_next_delay, spec_reset};
use crate::names::str_eq;

verus! {

/// What happened to the subscription: it was established (the change
/// notifications are flowing), connecting failed, building the property
/// proxy failed, or an established session ended (a subscription error, or
/// the notification stream ending, which a healthy session never does).
#[derive(Clone, Copy, Debug, PartialEq, Eq, Structural)]
pub enum LinkEvent {
    Subscribed,
    ConnectFailed,
    ProxySetupFailed,
    SessionEnded,
}

/// Pacing for the subscription lifecycle: every failure is retried after a
/// backoff delay, and the backoff is reset exactly once per successful
/// transition into the subscribed state.
pub struct Reconnect {
    pub backoff: Backoff,
}

impl Reconnect {
    pub fn new(base_ms: u64, max_ms: u64) -> (r: Reconnect)
        requires
            base_ms <= max_ms,
            max_ms <= u64::MAX / 2,
        ensures
            backoff_wf(r.backoff),
            r.backoff.base_ms == base_ms,
            r.backoff.max_ms == max_ms,
            r.backoff.current_ms == base_ms,
    {
        Reconnect { backoff: Backoff::new(base_ms, max_ms) }
    }

    /// Decides what follows a session event: entering the subscribed state
    /// resets the backoff and the loop proceeds at once; any failure yields
    /// the next backoff delay to sleep before retrying.
    pub fn on_event(&mut self, event: LinkEvent) -> (delay: Option<u64>)
        requires
            backoff_wf(old(self).backoff),
        ensures
            backoff_wf(final(self).backoff),
            event is Subscribed ==> delay is None && final(self).backoff == spec_reset(
                old(self).backoff,
            ),
            !(event is Subscribed) ==> delay == Some(spec_next_delay(old(self).backoff)),
            !(event is Subscribed) ==> final(self).backoff == spec_after_delay(old(self).backoff),
    {
        match event {
            LinkEvent::Subscribed => {
                self.backoff.reset();
                None
            },
            _ => Some(self.backoff.next_delay()),
        }
    }
}

/// The interface whose property changes the loop tracks.
pub open spec fn lid_interface() -> Seq<char> {
    "org.freedesktop.login1.Manager"@
}

/// The property whose changes encode the lid state.
pub open spec fn lid_property() -> Seq<char> {
    "LidClosed"@
}

/// Whether a notification's interface is the tracked one; all others are
/// ignored.
pub fn is_lid_interface(name: &str) -> (r: bool)
    ensures
        r == (name@ == lid_interface()),
{
    str_eq(name, "org.freedesktop.login1.Manager")
}

/// Whether a changed property is the lid state; all others are ignored.
pub fn is_lid_property(name: &str) -> (r: bool)
    ensures
        r == (name@ == lid_property()),
{
    str_eq(name, "LidClosed")
}

} // verus!

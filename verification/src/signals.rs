//! The signals on which the compositor shuts down.
//!
//! Installing handlers and changing the thread's signal mask are done
//! outside the library; the library says which signals those are.

use vstd::prelude::*;

verus! {

/// A signal that asks the compositor to shut down.
#[derive(Debug, Clone, Copy, PartialEq, Eq, Structural)]
pub enum ShutdownSignal {
    /// `SIGINT` (Ctrl+C).
    Interrupt,
    /// `SIGTERM`.
    Terminate,
    /// `SIGHUP`.
    Hangup,
}

/// The signals that shut the compositor down, and that are blocked early
/// (before threads are created) so that only the event loop receives them:
/// `SIGINT`, `SIGTERM`, `SIGHUP`, in that order.
pub fn shutdown_signals() -> (r: Vec<ShutdownSignal>)
    ensures
        r@ == seq![ShutdownSignal::Interrupt, ShutdownSignal::Terminate, ShutdownSignal::Hangup],
{
    let r = vec![ShutdownSignal::Interrupt, ShutdownSignal::Terminate, ShutdownSignal::Hangup];
    assert(r@ =~= seq![ShutdownSignal::Interrupt, ShutdownSignal::Terminate, ShutdownSignal::Hangup]);
    r
}

} // verus!

//! The anti-stall sentinel: the policy of the one permanent background
//! reader that keeps the hub from ever reaching a zero-subscriber state.
//! It discards every event and every lag report, waits when the hub is
//! idle, and stops only when the hub shuts down.

use vstd::prelude::*;

use crate::hub::Recv;

verus! {

/// What the sentinel does after one receive.
pub enum SentinelStep {
    /// An event or a lag report arrived: discard it and read again.
    KeepDraining,
    /// Nothing unread: wait for the next publish, then read again.
    WaitForMore,
    /// The hub shut down: the sentinel's work is over.
    Stop,
}

/// The sentinel's whole decision. It never unsubscribes on its own: only a
/// closed hub stops it.
pub fn sentinel_step(r: &Recv) -> (s: SentinelStep)
    ensures
        (r is Event || r is Lagged) <==> s is KeepDraining,
        r is Pending <==> s is WaitForMore,
        r is Closed <==> s is Stop,
{
    match r {
        Recv::Event(_) => SentinelStep::KeepDraining,
        Recv::Lagged(_) => SentinelStep::KeepDraining,
        Recv::Pending => SentinelStep::WaitForMore,
        Recv::Closed => SentinelStep::Stop,
    }
}

} // verus!

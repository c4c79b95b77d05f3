use vstd::prelude::*;

use crate::instance::Instance;
use crate::instance::Subscriptions;
use crate::pool::Pool;
use crate::pool::Ruffle;

verus! {

/// The single opaque error creation can surface: some part of the engine
/// session or its backends failed to construct. Which part failed is
/// deliberately not distinguished at this boundary.
#[derive(Clone, Copy, PartialEq, Eq, Debug)]
pub struct CreationError;

/// Destroy failed to cancel the pending display-refresh registration with
/// the host scheduler. The instance is still removed and its subscriptions
/// still revoked regardless.
#[derive(Clone, Copy, PartialEq, Eq, Debug)]
pub struct CancellationError;

/// What the host glue must do after destroy removed an instance: stop all
/// audio on the engine session, revoke the named subscriptions, and cancel
/// the pending display-refresh registration when a token is named. Only the
/// cancellation can fail; `destroy_result` maps its outcome to destroy's
/// overall result.
#[derive(Clone, Copy, PartialEq, Eq, Debug)]
pub struct Teardown {
    /// Token of the pending display-refresh registration to cancel with the
    /// host scheduler; absent when none was pending.
    pub cancel_frame: Option<i32>,
    /// The subscriptions to revoke.
    pub revoke: Subscriptions,
}

impl Ruffle {
    /// Creates an instance once the host glue has attempted to construct the
    /// engine session, whose outcome `engine_constructed` reports. On failure
    /// a single opaque error is surfaced and no partial instance is left in
    /// the pool. On success a fresh handle — one aliasing no live instance —
    /// is returned, and the instance starts with zero geometry (so the first
    /// tick always resizes), the host-reported pixel ratio, no timestamp, no
    /// focus, and every subscription installed; the caller then installs the
    /// subscriptions and issues one synchronous tick with a zero timestamp to
    /// record the baseline and arm the first scheduled frame.
    pub fn new(pool: &mut Pool, ratio_milli: u32, engine_constructed: bool) -> (r: Result<Ruffle, CreationError>)
        ensures
            engine_constructed ==> {
                &&& r is Ok
                &&& !old(pool).entries().dom().contains(r->Ok_0.id())
                &&& final(pool).entries() == old(pool).entries().insert(r->Ok_0.id(), Instance::initial_spec(ratio_milli))
            },
            !engine_constructed ==> r is Err && final(pool).entries() == old(pool).entries(),
    {
        if engine_constructed {
            Ok(pool.allocate(Instance::initial(ratio_milli)))
        } else {
            Err(CreationError)
        }
    }

    /// Removes this handle's instance from the pool and returns the teardown
    /// directives, carrying the pending frame token (so no callback can fire
    /// for this handle afterwards) and the subscriptions to revoke.
    /// Destroying an unknown or already-destroyed handle is a no-op that
    /// returns None — never an error.
    pub fn destroy(&self, pool: &mut Pool) -> (r: Option<Teardown>)
        ensures
            old(pool).live(*self) ==> {
                let inst = old(pool).entries()[self.id()];
                &&& final(pool).entries() == old(pool).entries().remove(self.id())
                &&& r == Some(Teardown { cancel_frame: inst.frame_token, revoke: inst.subscriptions })
            },
            !old(pool).live(*self) ==> final(pool).entries() == old(pool).entries() && r is None,
    {
        match pool.remove(self) {
            Some(inst) => Some(Teardown { cancel_frame: inst.frame_token, revoke: inst.subscriptions }),
            None => None,
        }
    }
}

/// Maps the host scheduler's cancellation outcome to destroy's overall
/// result: destroy fails exactly when cancelling the pending registration
/// failed; the failure is surfaced, never swallowed.
pub fn destroy_result(cancel_failed: bool) -> (r: Result<(), CancellationError>)
    ensures
        r is Ok <==> !cancel_failed,
{
    if cancel_failed {
        Err(CancellationError)
    } else {
        Ok(())
    }
}

} // verus!

use vstd::prelude::*;

use crate::geometry::viewport_dim;
use crate::geometry::viewport_len;
use crate::instance::Instance;
use crate::pool::Pool;
use crate::pool::Ruffle;

verus! {

/// The host-reported values read at the top of each frame tick: the surface's
/// current logical size, and the current device pixel ratio in thousandths
/// (it changes when the user zooms).
#[derive(Clone, Copy, PartialEq, Eq, Debug)]
pub struct HostView {
    pub width: i32,
    pub height: i32,
    pub ratio_milli: u32,
}

/// Device-pixel dimensions for the backing buffer and the engine viewport.
#[derive(Clone, Copy, PartialEq, Eq, Debug)]
pub struct Viewport {
    pub width: u32,
    pub height: u32,
}

/// What one frame tick asks the host glue to do, in order: advance the engine
/// session, apply the resize if one is present, then re-arm.
#[derive(Clone, Copy, PartialEq, Eq, Debug)]
pub struct TickOutcome {
    /// Advance the engine session by this many clock units; absent exactly
    /// when the handle was stale and nothing must happen.
    pub advance: Option<i128>,
    /// Resize the backing buffer to these device-pixel dimensions (which
    /// discards its contents), propagate them to the engine session and its
    /// renderer, and force one immediate render so the resize never leaves a
    /// stale frame visible; present exactly when the geometry drifted.
    pub resize: Option<Viewport>,
    /// Request the next display-refresh callback with the same handler, then
    /// report the returned token with `store_frame_token`.
    pub rearm: bool,
}

/// Whether the host-reported geometry differs from the instance's
/// last-observed values. All three comparisons are exact: the pixel ratio is
/// carried in integer thousandths precisely so that no approximate
/// comparison is needed.
pub open spec fn drift(inst: Instance, host: HostView) -> bool {
    host.width != inst.canvas_width
    || host.height != inst.canvas_height
    || host.ratio_milli != inst.ratio_milli
}

/// Elapsed time for a tick at `t`: the difference from the previous tick's
/// timestamp, or zero at the very first tick — the host's timestamp origin is
/// not comparable to any other baseline, and zero avoids a spurious large
/// first delta.
pub open spec fn dt_of(prev: Option<u64>, t: u64) -> int {
    match prev {
        Some(p) => t - p,
        None => 0,
    }
}

/// The instance state after a tick at `t` under host readings `host`: the
/// timestamp is recorded unconditionally, the geometry mirrors the host
/// exactly when drift was detected, and the frame token is cleared until the
/// host reports the new registration.
pub open spec fn ticked(inst: Instance, t: u64, host: HostView) -> Instance {
    Instance {
        canvas_width: if drift(inst, host) { host.width } else { inst.canvas_width },
        canvas_height: if drift(inst, host) { host.height } else { inst.canvas_height },
        ratio_milli: if drift(inst, host) { host.ratio_milli } else { inst.ratio_milli },
        timestamp: Some(t),
        frame_token: None,
        ..inst
    }
}

/// The instance state after the host reports the token of a freshly requested
/// frame registration. Zero is not a valid token and leaves none pending.
pub open spec fn with_token(inst: Instance, token_id: i32) -> Instance {
    Instance {
        frame_token: if token_id == 0 { None } else { Some(token_id) },
        ..inst
    }
}

impl Ruffle {
    /// The display-refresh callback body, given the host-supplied absolute
    /// timestamp and the current host readings. A stale handle does nothing
    /// (the race where destroy ran between scheduling and firing). Otherwise:
    /// the elapsed time is computed against the stored timestamp (zero on the
    /// very first tick) and the timestamp recorded; geometry drift is
    /// detected by exact comparison and, on drift, the stored geometry is
    /// updated and a resize directive carries the device-pixel dimensions,
    /// rounded down from the logical size times the pixel ratio; and the
    /// re-arm directive is set while the refresh handler is installed.
    pub fn tick(&self, pool: &mut Pool, timestamp: u64, host: HostView) -> (o: TickOutcome)
        ensures
            old(pool).live(*self) ==> {
                let inst = old(pool).entries()[self.id()];
                &&& final(pool).entries() == old(pool).entries().insert(self.id(), ticked(inst, timestamp, host))
                &&& o.advance is Some
                &&& o.advance->Some_0 == dt_of(inst.timestamp, timestamp)
                &&& (o.resize is Some <==> drift(inst, host))
                &&& drift(inst, host) ==> o.resize->Some_0.width == viewport_dim(host.width as int, host.ratio_milli as int)
                &&& drift(inst, host) ==> o.resize->Some_0.height == viewport_dim(host.height as int, host.ratio_milli as int)
                &&& o.rearm == inst.handler_installed
            },
            !old(pool).live(*self) ==> {
                &&& final(pool).entries() == old(pool).entries()
                &&& o == (TickOutcome { advance: None, resize: None, rearm: false })
            },
    {
        match pool.get(self) {
            None => TickOutcome { advance: None, resize: None, rearm: false },
            Some(inst) => {
                let dt: i128 = match inst.timestamp {
                    Some(p) => (timestamp as i128) - (p as i128),
                    None => 0,
                };
                let drifted: bool = host.width != inst.canvas_width
                    || host.height != inst.canvas_height
                    || host.ratio_milli != inst.ratio_milli;
                let resize: Option<Viewport> = if drifted {
                    Some(Viewport {
                        width: viewport_len(host.width, host.ratio_milli),
                        height: viewport_len(host.height, host.ratio_milli),
                    })
                } else {
                    None
                };
                pool.put(self, Instance {
                    canvas_width: if drifted { host.width } else { inst.canvas_width },
                    canvas_height: if drifted { host.height } else { inst.canvas_height },
                    ratio_milli: if drifted { host.ratio_milli } else { inst.ratio_milli },
                    timestamp: Some(timestamp),
                    frame_token: None,
                    ..inst
                });
                TickOutcome { advance: Some(dt), resize, rearm: inst.handler_installed }
            },
        }
    }

    /// Records the token of the display-refresh registration that the re-arm
    /// directive of `tick` asked for. A zero token (the host's token type has
    /// no zero value) and a stale handle both leave nothing pending.
    pub fn store_frame_token(&self, pool: &mut Pool, token_id: i32)
        ensures
            old(pool).live(*self) ==> final(pool).entries() == old(pool).entries().insert(self.id(), with_token(old(pool).entries()[self.id()], token_id)),
            !old(pool).live(*self) ==> final(pool).entries() == old(pool).entries(),
    {
        match pool.get(self) {
            Some(inst) => {
                pool.put(self, Instance {
                    frame_token: if token_id == 0 { None } else { Some(token_id) },
                    ..inst
                });
            },
            None => {},
        }
    }
}

} // verus!

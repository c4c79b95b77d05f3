use vstd::prelude::*;

verus! {

/// Which revocable host event subscriptions one instance holds.
///
/// The host glue installs all of them when an instance is created; the
/// teardown directive returned by `Ruffle::destroy` names them again so the
/// glue revokes every one before the instance is released.
#[derive(Clone, Copy, PartialEq, Eq, Debug)]
pub struct Subscriptions {
    /// Surface-scoped pointer-move listener.
    pub pointer_move: bool,
    /// Surface-scoped pointer-down listener.
    pub pointer_down: bool,
    /// Capture-phase pointer-down listener on the host's global input surface,
    /// used only to clear focus before a surface pointer-down can set it.
    pub global_pointer_down: bool,
    /// Surface-scoped pointer-up listener.
    pub pointer_up: bool,
    /// Global key-down listener.
    pub key_down: bool,
    /// Global key-up listener.
    pub key_up: bool,
}

impl Subscriptions {
    /// Every subscription installed.
    pub open spec fn all_spec() -> Subscriptions {
        Subscriptions {
            pointer_move: true,
            pointer_down: true,
            global_pointer_down: true,
            pointer_up: true,
            key_down: true,
            key_up: true,
        }
    }

    /// Builds the full subscription set a fresh instance holds.
    pub fn all() -> (s: Subscriptions)
        ensures
            s == Subscriptions::all_spec(),
    {
        Subscriptions {
            pointer_move: true,
            pointer_down: true,
            global_pointer_down: true,
            pointer_up: true,
            key_down: true,
            key_up: true,
        }
    }
}

/// Per-embedding state, mirroring the host-reported values exactly.
///
/// Geometry is kept as plain integers: logical lengths in the host's units and
/// the device pixel ratio in thousandths, so that drift detection compares
/// exactly (a deliberate choice over an approximate comparison). Timestamps
/// are host clock readings in whole microseconds.
#[derive(Clone, Copy, PartialEq, Eq, Debug)]
pub struct Instance {
    /// Last-observed logical width of the drawing surface.
    pub canvas_width: i32,
    /// Last-observed logical height of the drawing surface.
    pub canvas_height: i32,
    /// Last-observed device pixel ratio, in thousandths.
    pub ratio_milli: u32,
    /// Timestamp of the last frame tick, absent before the first tick.
    pub timestamp: Option<u64>,
    /// Token of the pending display-refresh registration, absent when none is
    /// pending. Zero is never stored: the host's token type has no zero value.
    pub frame_token: Option<i32>,
    /// Whether the display-refresh callback is installed; gates the re-arm
    /// step of each tick.
    pub handler_installed: bool,
    /// Focus flag: gates keyboard forwarding and default-action suppression.
    pub has_focus: bool,
    /// The host event subscriptions this instance holds.
    pub subscriptions: Subscriptions,
}

impl Instance {
    /// State of a freshly created instance: geometry starts at zero so the
    /// first tick always detects drift and performs the initial resize and
    /// forced render; no tick has happened, no frame registration is pending,
    /// the refresh callback and all event subscriptions are installed, and the
    /// instance starts unfocused.
    pub open spec fn initial_spec(ratio_milli: u32) -> Instance {
        Instance {
            canvas_width: 0,
            canvas_height: 0,
            ratio_milli,
            timestamp: None,
            frame_token: None,
            handler_installed: true,
            has_focus: false,
            subscriptions: Subscriptions::all_spec(),
        }
    }

    /// Builds the state of a freshly created instance.
    pub fn initial(ratio_milli: u32) -> (inst: Instance)
        ensures
            inst == Instance::initial_spec(ratio_milli),
    {
        Instance {
            canvas_width: 0,
            canvas_height: 0,
            ratio_milli,
            timestamp: None,
            frame_token: None,
            handler_installed: true,
            has_focus: false,
            subscriptions: Subscriptions::all(),
        }
    }
}

} // verus!

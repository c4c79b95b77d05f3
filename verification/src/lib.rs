//! Instance lifecycle and event bridging for an embedded multimedia playback
//! engine.
//!
//! This crate owns the pool of live embeddings, the creation/destruction state
//! machine, the translation of host pointer/keyboard events into engine event
//! variants (with focus gating and pointer-capture discipline), and the frame
//! scheduler that computes elapsed time, detects viewport and pixel-ratio
//! drift, and re-arms itself each frame.
//!
//! The engine itself and the host platform are collaborators: every decision
//! this crate makes is returned as plain directive values, and the surrounding
//! host glue performs them (forwarding events to the engine session, resizing
//! the backing buffer, requesting and cancelling display-refresh callbacks).

pub mod events;
pub mod geometry;
pub mod instance;
pub mod laws;
pub mod lifecycle;
pub mod pool;
pub mod scheduler;

pub use crate::events::KeyDownOutcome;
pub use crate::events::KeyUpOutcome;
pub use crate::events::PointerDownOutcome;
pub use crate::events::PointerMoveOutcome;
pub use crate::events::PointerPoint;
pub use crate::events::PointerUpOutcome;
pub use crate::instance::Instance;
pub use crate::instance::Subscriptions;
pub use crate::lifecycle::destroy_result;
pub use crate::lifecycle::CancellationError;
pub use crate::lifecycle::CreationError;
pub use crate::lifecycle::Teardown;
pub use crate::pool::Pool;
pub use crate::pool::Ruffle;
pub use crate::scheduler::HostView;
pub use crate::scheduler::TickOutcome;
pub use crate::scheduler::Viewport;

//! Bookkeeping for positional audio: which live sound instances an update
//! tick writes playback parameters into, and which instance handles an
//! emitter stops tracking once their sounds have finished.
//!
//! The floating-point attenuation and panning model runs in the host around
//! this library; everything here is integer- and table-based and verified.
pub mod store;
pub mod cleanup;
pub mod update;

pub use cleanup::retain_unstopped;
pub use store::{InstanceTable, PlaybackState};
pub use update::{plan_update, sole_receiver, writes_for_emitter};

//! Frame hand-off and playback control for a media pipeline feeding a UI host.
//!
//! The library holds the decisions: the single-slot frame hand-off, the
//! playback state machine, the duration latch and the handling of pipeline
//! bus messages. Driving the pipeline itself is left to the caller, which
//! performs the actions that the library returns and hands back what the
//! pipeline answered.
use vstd::prelude::*;

pub mod frame;

pub use frame::{FrameData, FrameSlot};
pub mod control;

pub use control::{
    BusMessage, BusStep, Error, GStreamerMessage, GstreamerIced, PipelineAction, PlayStatus,
    Position, TICK_MILLIS,
};
pub mod laws;

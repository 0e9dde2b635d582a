//! Routing of terminal input events to ordered, per-kind handler lists.
//!
//! The library decides; the caller performs. A driver waits for ticks, polls
//! the event source and runs handlers, and after each of those asks the
//! [`EventHandler`] what to do next. The dispatcher decides which handler
//! runs, in which order, and when the first failure ends the loop.
use vstd::prelude::*;

pub mod event;
pub mod dispatch;
pub mod lemmas;

pub use event::{Event, Kind};
pub use dispatch::{Action, EventHandler, Input, Phase, TICK_PERIOD_MS};

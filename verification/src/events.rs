//! The event dispatch engine: a catalog of event kinds, listeners that are
//! registered per kind, a dispatch step that runs a kind's listeners in
//! registration order until one claims the event, and a queue for events
//! whose delivery is deferred to the next drain.

pub mod keyboard;
pub mod mouse;
pub mod event;
pub mod listener;
pub mod registry;
pub mod queue;
pub mod system;
pub mod laws;

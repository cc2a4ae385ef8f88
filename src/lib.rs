//! Client-side live-data synchronisation for the device dashboard: a bounded
//! log tail, the state machine of its reconnecting push stream, optimistic
//! control actions with last-submit-wins reconciliation, and the store that
//! the rendering layer reads.

pub mod actions;
pub mod event_stream;
pub mod log_buffer;
pub mod store;

pub use actions::{ActionError, ActionRequest, ControlValue, OptimisticActionController, PendingAction};
pub use event_stream::{ConnectionState, ReconnectingEventStream, StreamCommand, StreamEvent};
pub use log_buffer::BoundedLogBuffer;
pub use store::{SystemStatus, UiStateStore};

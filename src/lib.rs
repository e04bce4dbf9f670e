//! A real-time notification relay: a registry of live connections keyed by
//! destination identifier, a per-connection liveness monitor, a frame
//! translator and a router that hands a notification to a registered
//! connection's outbound queue.
pub mod controllers;
pub mod frame;
pub mod liveness;
pub mod outbound;
pub mod registry;
pub mod response;
pub mod router;

pub use controllers::{
    clients, health, lock_unavailable, notify_machine, notify_reply, NotifyController,
    NotifyMachineRequest, STATUS_INTERNAL_ERROR, STATUS_NOT_FOUND, STATUS_OK,
};
pub use frame::{echo_of_text, handle_frame, CloseReason, Frame, Reply};
pub use liveness::{
    Liveness, Monitor, MonitorAction, MonitorEvent, MonitorState, CLIENT_TIMEOUT_MS,
    PROBE_PERIOD_MS,
};
pub use registry::{Registry, RegistryError};
pub use response::ApiResponse;
pub use router::{outcome_of_send, route, RouteOutcome};

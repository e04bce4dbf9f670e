//! The relay's request interface, apart from transport: each operation
//! answers with a status code and a reply envelope.
use futures::channel::mpsc::UnboundedSender;
use vstd::prelude::*;

use crate::outbound::is_send_failure_text;
use crate::registry::Registry;
use crate::response::ApiResponse;
use crate::router::{route, RouteOutcome};

verus! {

pub const STATUS_OK: u16 = 200;

pub const STATUS_NOT_FOUND: u16 = 404;

pub const STATUS_INTERNAL_ERROR: u16 = 500;

/// Groups the relay's request handlers.
pub struct NotifyController;

/// A request to notify the connection registered under `destination_id`.
#[derive(Debug, Clone)]
pub struct NotifyMachineRequest {
    pub destination_id: String,
    pub sender_id: String,
    pub message: String,
}

/// `r` reports that a notification to `id` was accepted.
pub open spec fn is_delivered_reply(id: Seq<char>, r: (u16, ApiResponse<(), String>)) -> bool {
    &&& r.0 == STATUS_OK
    &&& r.1.spec_success()
    &&& r.1.spec_message() == "Notification sent successfully to machine with id "@ + id
    &&& r.1.spec_data() is None
    &&& r.1.spec_error() is None
}

/// `r` reports that nothing is registered under `id`.
pub open spec fn is_not_connected_reply(id: Seq<char>, r: (u16, ApiResponse<(), String>)) -> bool {
    &&& r.0 == STATUS_NOT_FOUND
    &&& !r.1.spec_success()
    &&& r.1.spec_message() == "Client is not connected"@
    &&& r.1.spec_data() is None
    &&& r.1.spec_error() matches Some(e) && e@ == "There is no socket connection with id "@ + id
}

/// `r` reports that the destination's queue refused the payload, for `reason`.
pub open spec fn is_failed_reply(reason: Seq<char>, r: (u16, ApiResponse<(), String>)) -> bool {
    &&& r.0 == STATUS_INTERNAL_ERROR
    &&& !r.1.spec_success()
    &&& r.1.spec_message() == "Failed to send message"@
    &&& r.1.spec_data() is None
    &&& r.1.spec_error() matches Some(e) && e@ == reason
}

/// The liveness check: always 200, with no payload.
pub fn health() -> (r: (u16, ApiResponse<(), ()>))
    ensures
        r.0 == STATUS_OK,
        r.1.spec_success(),
        r.1.spec_message() == "Service is running"@,
        r.1.spec_data() is None,
        r.1.spec_error() is None,
{
    (STATUS_OK, ApiResponse::success("Service is running", None))
}

/// The identifiers registered now, oldest first, as a 200 reply.
pub fn clients<H>(registry: &Registry<H>) -> (r: (u16, ApiResponse<Vec<String>, String>))
    requires
        registry.wf(),
    ensures
        r.0 == STATUS_OK,
        r.1.spec_success(),
        r.1.spec_message() == "List of connected clients"@,
        r.1.spec_data() matches Some(ids) && ids@.map_values(|s: String| s@) == registry.ids(),
        r.1.spec_error() is None,
{
    let ids = registry.list();
    (STATUS_OK, ApiResponse::success("List of connected clients", Some(ids)))
}

/// The reply when the registry cannot be reached because its lock is poisoned.
pub fn lock_unavailable<T>() -> (r: (u16, ApiResponse<T, String>))
    ensures
        r.0 == STATUS_INTERNAL_ERROR,
        !r.1.spec_success(),
        r.1.spec_message() == "Failed to acquire state lock"@,
        r.1.spec_data() is None,
        r.1.spec_error() matches Some(e) && e@ == "Lock is poisoned"@,
{
    (STATUS_INTERNAL_ERROR, ApiResponse::error("Failed to acquire state lock", "Lock is poisoned".to_owned()))
}

/// The reply for a notification to `id` whose routing came out as `outcome`.
pub fn notify_reply(outcome: RouteOutcome, id: &String) -> (r: (u16, ApiResponse<(), String>))
    ensures
        outcome is Delivered ==> is_delivered_reply(id@, r),
        outcome is NotConnected ==> is_not_connected_reply(id@, r),
        outcome matches RouteOutcome::DeliveryFailed(reason) ==> is_failed_reply(reason@, r),
{
    match outcome {
        RouteOutcome::Delivered => {
            let mut text = "Notification sent successfully to machine with id ".to_owned();
            text.append(id.as_str());
            (STATUS_OK, ApiResponse::success(text.as_str(), None))
        },
        RouteOutcome::NotConnected => {
            let mut detail = "There is no socket connection with id ".to_owned();
            detail.append(id.as_str());
            (STATUS_NOT_FOUND, ApiResponse::error("Client is not connected", detail))
        },
        RouteOutcome::DeliveryFailed(reason) => {
            (STATUS_INTERNAL_ERROR, ApiResponse::error("Failed to send message", reason))
        },
    }
}

/// Routes the request's message to its destination and answers 200 when the
/// destination's queue took it, 404 when nothing is registered under the
/// destination, and 500 when the queue refused it.
pub fn notify_machine(registry: &Registry<UnboundedSender<String>>, req: &NotifyMachineRequest) -> (r: (
    u16,
    ApiResponse<(), String>,
))
    requires
        registry.wf(),
    ensures
        !registry@.contains_key(req.destination_id@) ==> is_not_connected_reply(
            req.destination_id@,
            r,
        ),
        registry@.contains_key(req.destination_id@) ==> is_delivered_reply(req.destination_id@, r)
            || (r.1.spec_error() matches Some(e) && is_failed_reply(e@, r)
            && is_send_failure_text(e@)),
{
    let outcome = route(registry, &req.destination_id, req.message.clone());
    notify_reply(outcome, &req.destination_id)
}

} // verus!

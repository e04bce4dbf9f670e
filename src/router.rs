//! The router: hands a notification to the outbound queue of the connection
//! registered under its destination.
use futures::channel::mpsc::UnboundedSender;
use vstd::prelude::*;

use crate::outbound::{is_send_failure_text, send_failure_text};
use crate::registry::Registry;

verus! {

/// What became of a routed notification.
#[derive(Debug, Clone, PartialEq, Eq)]
pub enum RouteOutcome {
    /// Accepted into the destination's outbound queue.
    Delivered,
    /// No connection is registered under the destination.
    NotConnected,
    /// The destination's queue refused the payload; the connection is closing.
    DeliveryFailed(String),
}

/// The outcome of a routing whose enqueue answered `sent`.
pub fn outcome_of_send(sent: Result<(), String>) -> (r: RouteOutcome)
    ensures
        sent is Ok ==> r == RouteOutcome::Delivered,
        sent matches Err(e) ==> r matches RouteOutcome::DeliveryFailed(reason) && reason@ == e@,
{
    match sent {
        Ok(()) => RouteOutcome::Delivered,
        Err(e) => RouteOutcome::DeliveryFailed(e),
    }
}

/// Routes `payload` to the connection registered under `id`: `NotConnected`
/// exactly when there is none; otherwise the payload is handed to that
/// connection's queue, and the outcome says whether the queue took it.
pub fn route(registry: &Registry<UnboundedSender<String>>, id: &String, payload: String) -> (r:
    RouteOutcome)
    requires
        registry.wf(),
    ensures
        r == RouteOutcome::NotConnected <==> !registry@.contains_key(id@),
        r matches RouteOutcome::DeliveryFailed(reason) ==> is_send_failure_text(reason@),
{
    match registry.lookup(id) {
        None => RouteOutcome::NotConnected,
        Some(tx) => {
            let sent = match tx.unbounded_send(payload) {
                Ok(()) => Ok(()),
                Err(e) => Err(send_failure_text(&e)),
            };
            outcome_of_send(sent)
        },
    }
}

} // verus!

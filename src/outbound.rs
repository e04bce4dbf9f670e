//! The outbound queue of a connection: an unbounded channel of payloads whose
//! receiving end is drained by the connection's writer task.
use futures::channel::mpsc::{TrySendError, UnboundedSender};
use vstd::prelude::*;

verus! {

#[verifier::external_type_specification]
#[verifier::external_body]
#[verifier::reject_recursive_types(T)]
pub struct ExUnboundedSender<T>(UnboundedSender<T>);

#[verifier::external_type_specification]
#[verifier::external_body]
#[verifier::reject_recursive_types(T)]
pub struct ExTrySendError<T>(TrySendError<T>);

/// Relies on futures' `UnboundedSender::unbounded_send`: queues the message
/// unless the receiving side is gone. Which of the two happens depends on the
/// channel, so nothing is promised of the result.
pub assume_specification<T>[ UnboundedSender::<T>::unbounded_send ](
    tx: &UnboundedSender<T>,
    msg: T,
) -> Result<(), TrySendError<T>>;

/// The two texts with which futures' `TrySendError` describes itself.
pub open spec fn is_send_failure_text(s: Seq<char>) -> bool {
    s == "send failed because channel is full"@ || s == "send failed because receiver is gone"@
}

/// Relies on futures' `Display` for `TrySendError`, which writes one of two
/// fixed texts depending on whether the channel was full or closed.
#[verifier::external_body]
pub(crate) fn send_failure_text(e: &TrySendError<String>) -> (r: String)
    ensures
        is_send_failure_text(r@),
{
    e.to_string()
}

} // verus!

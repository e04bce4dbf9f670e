//! The frame translator: what an inbound frame of a connection does to its
//! liveness, and which frame, if any, goes back.
use vstd::prelude::*;
use vstd::utf8::{decode_utf8, valid_utf8};

use crate::liveness::Liveness;

verus! {

/// Why a connection is being closed: a close code and an optional description.
#[derive(Debug, Clone, PartialEq, Eq)]
pub struct CloseReason {
    pub code: u16,
    pub description: Option<String>,
}

/// An inbound frame.
#[derive(Debug, Clone, PartialEq, Eq)]
pub enum Frame {
    Text(Vec<u8>),
    Binary(Vec<u8>),
    /// A probe.
    Ping(Vec<u8>),
    /// A probe acknowledgement.
    Pong(Vec<u8>),
    Close(Option<CloseReason>),
    /// A continuation fragment, or a frame that could not be read.
    Unsupported,
}

/// An outbound frame sent in answer to an inbound one.
#[derive(Debug, Clone, PartialEq, Eq)]
pub enum Reply {
    Text(String),
    Binary(Vec<u8>),
    /// A probe acknowledgement.
    Pong(Vec<u8>),
    Close(Option<CloseReason>),
}

/// The text echoed for a text frame's bytes: the characters they encode, or
/// nothing when they are not valid UTF-8.
pub open spec fn echo_text(bytes: Seq<u8>) -> Seq<char> {
    if valid_utf8(bytes) {
        decode_utf8(bytes)
    } else {
        Seq::empty()
    }
}

/// Whether a frame counts as activity of the connection.
pub open spec fn is_activity(frame: Frame) -> bool {
    match frame {
        Frame::Text(_) | Frame::Binary(_) | Frame::Ping(_) | Frame::Pong(_) => true,
        Frame::Close(_) | Frame::Unsupported => false,
    }
}

/// Whether `r` is the answer to `frame`: a probe is acknowledged with the same
/// payload, data is echoed when `echo_data` holds, a close is answered with a
/// matching close, and anything else gets no answer.
pub open spec fn is_reply_to(frame: Frame, echo_data: bool, r: Option<Reply>) -> bool {
    match frame {
        Frame::Ping(p) => r matches Some(Reply::Pong(q)) && q@ == p@,
        Frame::Pong(_) => r is None,
        Frame::Text(b) => if echo_data {
            r matches Some(Reply::Text(s)) && s@ == echo_text(b@)
        } else {
            r is None
        },
        Frame::Binary(b) => if echo_data {
            r matches Some(Reply::Binary(c)) && c@ == b@
        } else {
            r is None
        },
        Frame::Close(reason) => r == Some(Reply::Close(reason)),
        Frame::Unsupported => r is None,
    }
}

/// Relies on std's `String::from_utf8`: a string exactly when the bytes are
/// valid UTF-8, holding the characters that they encode.
#[verifier::external_body]
fn string_from_utf8(bytes: Vec<u8>) -> (r: Option<String>)
    ensures
        r is Some <==> valid_utf8(bytes@),
        r matches Some(s) ==> s@ == decode_utf8(bytes@),
{
    String::from_utf8(bytes).ok()
}

/// The text sent back for a text frame's bytes.
pub fn echo_of_text(bytes: Vec<u8>) -> (r: String)
    ensures
        r@ == echo_text(bytes@),
{
    match string_from_utf8(bytes) {
        Some(s) => s,
        None => String::new(),
    }
}

/// Handles one inbound frame received at `now`: records activity for probes,
/// probe acknowledgements and data, and returns the frame to send back.
pub fn handle_frame(live: &mut Liveness, frame: Frame, now: u64, echo_data: bool) -> (r: Option<Reply>)
    ensures
        final(live).last_activity == if is_activity(frame) {
            now
        } else {
            old(live).last_activity
        },
        is_reply_to(frame, echo_data, r),
{
    match frame {
        Frame::Ping(payload) => {
            live.record_activity(now);
            Some(Reply::Pong(payload))
        },
        Frame::Pong(_) => {
            live.record_activity(now);
            None
        },
        Frame::Text(bytes) => {
            live.record_activity(now);
            if echo_data {
                Some(Reply::Text(echo_of_text(bytes)))
            } else {
                None
            }
        },
        Frame::Binary(bytes) => {
            live.record_activity(now);
            if echo_data {
                Some(Reply::Binary(bytes))
            } else {
                None
            }
        },
        Frame::Close(reason) => Some(Reply::Close(reason)),
        Frame::Unsupported => None,
    }
}

} // verus!

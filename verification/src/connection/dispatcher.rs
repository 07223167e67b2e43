//! The decisions of the connection dispatcher.
//!
//! The dispatcher multiplexes outbound JSON-RPC requests and inbound
//! frames over one WebSocket. Each request registers a waiter under its
//! numeric `id`; an inbound text frame whose `id` names a pending waiter is
//! that waiter's response, and every other text frame is forwarded as a
//! notification. Non-text frames are skipped; a close frame, the end of
//! the stream or a stream error stops the dispatcher, and the waiters still
//! pending then receive a connection-closed error. This module holds those
//! rules; the task that owns the socket performs the resulting actions.

use vstd::prelude::*;
use std::collections::HashSet;
use vstd::std_specs::iter::IteratorSpec;

use crate::error::WebSocketError;
use crate::json::{member, u64_of, JsonValue};
use crate::text::{owned, push_i64};

verus! {

broadcast use vstd::std_specs::hash::group_hash_axioms;

/// The kinds of frame a WebSocket stream yields, and its end.
#[derive(Clone, Copy, Debug, PartialEq, Eq, Structural)]
pub enum FrameKind {
    /// A text frame
    Text,
    /// A binary frame
    Binary,
    /// A ping frame
    Ping,
    /// A pong frame
    Pong,
    /// A raw frame
    Frame,
    /// A close frame
    Close,
    /// The stream ended
    End,
    /// The stream reported an error
    Error,
}

/// What to do with the next item of the stream.
#[derive(Clone, Copy, Debug, PartialEq, Eq, Structural)]
pub enum FrameStep {
    /// Handle the text of the frame.
    Handle,
    /// Skip the frame and read the next one.
    Skip,
    /// Stop reading: the connection is over.
    Stop,
}

/// Text frames are handled, binary, ping, pong and raw frames skipped; a
/// close frame, the end of the stream or an error stops the reader.
pub open spec fn step_for(kind: FrameKind) -> FrameStep {
    match kind {
        FrameKind::Text => FrameStep::Handle,
        FrameKind::Binary | FrameKind::Ping | FrameKind::Pong | FrameKind::Frame => FrameStep::Skip,
        FrameKind::Close | FrameKind::End | FrameKind::Error => FrameStep::Stop,
    }
}

/// What to do with the next item of the stream.
pub fn frame_step(kind: FrameKind) -> (r: FrameStep)
    ensures
        r == step_for(kind),
{
    match kind {
        FrameKind::Text => FrameStep::Handle,
        FrameKind::Binary | FrameKind::Ping | FrameKind::Pong | FrameKind::Frame => FrameStep::Skip,
        FrameKind::Close | FrameKind::End | FrameKind::Error => FrameStep::Stop,
    }
}

/// The numeric `id` of an inbound frame: the `id` member of its JSON
/// document when that is a non-negative integer. Frames that are not JSON,
/// or carry no such `id`, have none.
pub open spec fn frame_id(parsed: Option<JsonValue>) -> Option<u64> {
    match parsed {
        Some(v) => match member(v, "id"@) {
            Some(i) => u64_of(i),
            None => None,
        },
        None => None,
    }
}

/// Where an inbound text frame goes.
#[derive(Clone, Copy, Debug, PartialEq, Eq, Structural)]
pub enum FrameRoute {
    /// The frame is the response to the pending request with this id.
    Deliver(u64),
    /// The frame is a notification (or an unmatched response).
    Forward,
}

/// The ids of the requests awaiting their responses.
#[derive(Debug)]
pub struct Waiters {
    ids: HashSet<u64>,
}

impl Waiters {
    /// The pending request ids.
    pub closed spec fn view(&self) -> Set<u64> {
        self.ids@
    }

    /// No request is pending.
    pub fn new() -> (r: Self)
        ensures
            r@ == Set::<u64>::empty(),
    {
        Waiters { ids: HashSet::new() }
    }

    /// A request with this id is pending.
    pub fn contains(&self, id: u64) -> (r: bool)
        ensures
            r == self@.contains(id),
    {
        self.ids.contains(&id)
    }

    /// The number of pending requests.
    pub fn len(&self) -> (r: usize)
        ensures
            r == self@.len(),
    {
        self.ids.len()
    }

    /// Decide whether an outbound request may be sent: its id must be a
    /// `u64` that is not already awaiting a response. A duplicate would
    /// orphan the first waiter and could mis-route its response.
    pub fn accept_request(&self, id: Option<u64>) -> (r: Result<u64, WebSocketError>)
        ensures
            match id {
                None => r matches Err(e) && (e matches WebSocketError::InvalidMessage(m) && m@
                    == "request id must be u64"@),
                Some(n) => if self@.contains(n) {
                    r matches Err(e) && (e matches WebSocketError::InvalidMessage(m) && m@
                        == "duplicate in-flight request id "@ + crate::text::decimal_text(n as int))
                } else {
                    r == Ok::<u64, WebSocketError>(n)
                },
            },
    {
        match id {
            None => Err(WebSocketError::InvalidMessage(owned("request id must be u64"))),
            Some(n) => {
                if self.contains(n) {
                    let mut m = owned("duplicate in-flight request id ");
                    proof {
                        assert(n <= u64::MAX);
                    }
                    if n <= 9223372036854775807u64 {
                        push_i64(&mut m, n as i64);
                    } else {
                        push_i64(&mut m, (n / 10) as i64);
                        let mut last = String::new();
                        push_i64(&mut last, (n % 10) as i64);
                        m.append(last.as_str());
                        proof {
                            crate::text::lemma_decimal_split(n as nat);
                        }
                    }
                    Err(WebSocketError::InvalidMessage(m))
                } else {
                    Ok(n)
                }
            },
        }
    }

    /// Record a waiter for an accepted request, before its frame is written
    /// so that a fast reply finds it.
    pub fn register(&mut self, id: u64)
        requires
            !old(self)@.contains(id),
        ensures
            final(self)@ == old(self)@.insert(id),
    {
        self.ids.insert(id);
    }

    /// Drop the waiter for `id`, if there is one: the request was answered,
    /// timed out, or could not be written.
    pub fn remove(&mut self, id: u64) -> (r: bool)
        ensures
            r == old(self)@.contains(id),
            final(self)@ == old(self)@.remove(id),
    {
        self.ids.remove(&id)
    }

    /// Route an inbound text frame, given its JSON document when it parsed:
    /// a frame whose `id` names a pending waiter is delivered to it and the
    /// waiter is dropped; any other frame is forwarded as a notification.
    pub fn route(&mut self, parsed: Option<&JsonValue>) -> (r: FrameRoute)
        ensures
            match frame_id(
                match parsed {
                    Some(v) => Some(*v),
                    None => None,
                },
            ) {
                Some(n) => if old(self)@.contains(n) {
                    r == FrameRoute::Deliver(n) && final(self)@ == old(self)@.remove(n)
                } else {
                    r == FrameRoute::Forward && final(self)@ == old(self)@
                },
                None => r == FrameRoute::Forward && final(self)@ == old(self)@,
            },
    {
        let id = match parsed {
            Some(v) => match v.get("id") {
                Some(i) => i.as_u64(),
                None => None,
            },
            None => None,
        };
        match id {
            Some(n) => {
                if self.remove(n) {
                    FrameRoute::Deliver(n)
                } else {
                    FrameRoute::Forward
                }
            },
            None => FrameRoute::Forward,
        }
    }

    /// Take every pending id when the dispatcher stops; each of those
    /// waiters then receives a connection-closed error.
    pub fn drain(&mut self) -> (r: Vec<u64>)
        ensures
            r@.to_set() == old(self)@,
            r@.no_duplicates(),
            final(self)@ == Set::<u64>::empty(),
    {
        let mut out: Vec<u64> = Vec::new();
        let ghost keys = self.ids@;
        for x in it: self.ids.iter()
            invariant
                keys == self.ids@,
                it.seq().unref().to_set() == keys,
                it.seq().unref().no_duplicates(),
                it.seq().len() == keys.len(),
                out@ == it.seq().unref().take(it.index() as int),
                out@.len() == it.index(),
                forall|i: int| 0 <= i < out@.len() ==> keys.contains(#[trigger] out@[i]),
        {
            out.push(*x);
        }
        proof {
            out@.unique_seq_to_set();
            assert(out@.to_set().subset_of(keys));
            vstd::set_lib::lemma_subset_equality(out@.to_set(), keys);
        }
        self.ids.clear();
        out
    }
}

} // verus!

verus! {

/// What the dispatcher task observes.
#[derive(Debug)]
pub enum DispatcherEvent {
    /// A caller submitted a request: its id when that is a `u64`, and the
    /// serializer's message when the request could not be written as text.
    Submit {
        /// The request id, when it is a `u64`.
        id: Option<u64>,
        /// Why the request could not be serialized, if it could not.
        serialize_error: Option<String>,
    },
    /// Writing the frame of the request `request` to the socket failed.
    WriteFailed {
        /// The request whose frame could not be written.
        request: u64,
        /// The sink's error message.
        reason: String,
    },
    /// A caller gave up waiting for the request with this id.
    Cancel(u64),
    /// A shutdown was requested, or every command sender is gone.
    Shutdown,
    /// The stream yielded an item of this kind; for a text frame, its JSON
    /// document when the text parsed.
    Inbound {
        /// The kind of item.
        kind: FrameKind,
        /// The parsed document of a text frame.
        parsed: Option<JsonValue>,
    },
}

/// What the dispatcher task does in answer to an event.
#[derive(Debug)]
pub enum DispatcherAction {
    /// Answer the submitting caller with this error; nothing is written.
    Reject(WebSocketError),
    /// The request is registered under this id: write its frame.
    Write(u64),
    /// The frame is the response of the waiter with this id, now removed.
    Deliver(u64),
    /// Forward the frame's text on the notification channel.
    Forward,
    /// Nothing to do.
    Ignore,
    /// Stop the task: answer the `failed` waiter with its error, then
    /// every waiter in `closed` with a connection-closed error.
    Stop {
        /// The waiter whose write failed, with the error it receives.
        failed: Option<(u64, WebSocketError)>,
        /// The waiters still pending.
        closed: Vec<u64>,
    },
}

/// The shape of a dispatcher action.
#[derive(Clone, Copy, Debug, PartialEq, Eq, Structural)]
pub enum Step {
    /// The submission is refused.
    Reject,
    /// The request with this id is registered and written.
    Write(u64),
    /// The frame goes to the waiter with this id.
    Deliver(u64),
    /// The frame is forwarded as a notification.
    Forward,
    /// Nothing happens.
    Ignore,
    /// The dispatcher stops.
    Stop,
}

/// The shape of the dispatcher's answer to `ev` while the requests in
/// `pending` await their responses.
pub open spec fn step_of(pending: Set<u64>, ev: DispatcherEvent) -> Step {
    match ev {
        DispatcherEvent::Submit { id, serialize_error } => match id {
            None => Step::Reject,
            Some(n) => if pending.contains(n) || serialize_error is Some {
                Step::Reject
            } else {
                Step::Write(n)
            },
        },
        DispatcherEvent::WriteFailed { .. } => Step::Stop,
        DispatcherEvent::Cancel(_) => Step::Ignore,
        DispatcherEvent::Shutdown => Step::Stop,
        DispatcherEvent::Inbound { kind, parsed } => match step_for(kind) {
            FrameStep::Handle => match frame_id(parsed) {
                Some(n) => if pending.contains(n) {
                    Step::Deliver(n)
                } else {
                    Step::Forward
                },
                None => Step::Forward,
            },
            FrameStep::Skip => Step::Ignore,
            FrameStep::Stop => Step::Stop,
        },
    }
}

/// The requests pending after the dispatcher answers `ev`.
pub open spec fn pending_after(pending: Set<u64>, ev: DispatcherEvent) -> Set<u64> {
    match step_of(pending, ev) {
        Step::Write(n) => pending.insert(n),
        Step::Deliver(n) => pending.remove(n),
        Step::Stop => Set::<u64>::empty(),
        _ => match ev {
            DispatcherEvent::Cancel(n) => pending.remove(n),
            _ => pending,
        },
    }
}

/// The shape of an action.
pub open spec fn step_kind(a: DispatcherAction) -> Step {
    match a {
        DispatcherAction::Reject(_) => Step::Reject,
        DispatcherAction::Write(n) => Step::Write(n),
        DispatcherAction::Deliver(n) => Step::Deliver(n),
        DispatcherAction::Forward => Step::Forward,
        DispatcherAction::Ignore => Step::Ignore,
        DispatcherAction::Stop { .. } => Step::Stop,
    }
}

/// The error a refused submission is answered with: a non-`u64` id, then
/// an id already in flight, then a serialization failure.
pub open spec fn reject_reason(pending: Set<u64>, id: Option<u64>, serialize_error: Option<String>, e: WebSocketError) -> bool {
    match id {
        None => e matches WebSocketError::InvalidMessage(m) && m@ == "request id must be u64"@,
        Some(n) => if pending.contains(n) {
            e matches WebSocketError::InvalidMessage(m) && m@ == "duplicate in-flight request id "@
                + crate::text::decimal_text(n as int)
        } else {
            match serialize_error {
                Some(s) => e matches WebSocketError::InvalidMessage(m) && m@ == "serialize: "@ + s@,
                None => false,
            }
        },
    }
}

/// The stop action answering `ev`: after a failed write, the failed
/// waiter receives `ConnectionFailed("sink send: <reason>")` and the others
/// are closed; after any other stopping event every pending waiter is
/// closed.
pub open spec fn stop_reason(pending: Set<u64>, ev: DispatcherEvent, failed: Option<(u64, WebSocketError)>, closed: Seq<u64>) -> bool {
    &&& closed.no_duplicates()
    &&& match ev {
        DispatcherEvent::WriteFailed { request, reason } => {
            &&& closed.to_set() == pending.remove(request)
            &&& if pending.contains(request) {
                failed matches Some(f) && f.0 == request && (f.1 matches WebSocketError::ConnectionFailed(m)
                    && m@ == "sink send: "@ + reason@)
            } else {
                failed is None
            }
        },
        _ => failed is None && closed.to_set() == pending,
    }
}

/// The dispatcher's bookkeeping: the pending waiters and whether it stopped.
#[derive(Debug)]
pub struct DispatcherState {
    waiters: Waiters,
    stopped: bool,
}

impl DispatcherState {
    /// The ids of the requests awaiting their responses.
    pub closed spec fn pending(&self) -> Set<u64> {
        self.waiters@
    }

    /// The dispatcher has stopped.
    pub closed spec fn has_stopped(&self) -> bool {
        self.stopped
    }

    /// A running dispatcher with no pending request.
    pub fn new() -> (r: Self)
        ensures
            r.pending() == Set::<u64>::empty(),
            !r.has_stopped(),
    {
        DispatcherState { waiters: Waiters::new(), stopped: false }
    }

    /// Whether the dispatcher has stopped.
    pub fn is_stopped(&self) -> (r: bool)
        ensures
            r == self.has_stopped(),
    {
        self.stopped
    }

    /// The number of requests awaiting their responses.
    pub fn pending_count(&self) -> (r: usize)
        ensures
            r == self.pending().len(),
    {
        self.waiters.len()
    }

    /// Decide the answer to one event and update the bookkeeping.
    pub fn step(&mut self, ev: DispatcherEvent) -> (a: DispatcherAction)
        requires
            !old(self).has_stopped(),
        ensures
            step_kind(a) == step_of(old(self).pending(), ev),
            final(self).pending() == pending_after(old(self).pending(), ev),
            final(self).has_stopped() == (step_of(old(self).pending(), ev) == Step::Stop),
            a matches DispatcherAction::Reject(e) ==> (ev matches DispatcherEvent::Submit {
                id,
                serialize_error,
            } && reject_reason(old(self).pending(), id, serialize_error, e)),
            a matches DispatcherAction::Stop { failed, closed } ==> stop_reason(
                old(self).pending(),
                ev,
                failed,
                closed@,
            ),
    {
        match ev {
            DispatcherEvent::Submit { id, serialize_error } => {
                match self.waiters.accept_request(id) {
                    Err(e) => DispatcherAction::Reject(e),
                    Ok(n) => match serialize_error {
                        Some(s) => {
                            let mut m = owned("serialize: ");
                            m.append(s.as_str());
                            DispatcherAction::Reject(WebSocketError::InvalidMessage(m))
                        },
                        None => {
                            self.waiters.register(n);
                            DispatcherAction::Write(n)
                        },
                    },
                }
            },
            DispatcherEvent::WriteFailed { request, reason } => {
                let had = self.waiters.remove(request);
                let failed = if had {
                    let mut m = owned("sink send: ");
                    m.append(reason.as_str());
                    Some((request, WebSocketError::ConnectionFailed(m)))
                } else {
                    None
                };
                let closed = self.waiters.drain();
                self.stopped = true;
                DispatcherAction::Stop { failed, closed }
            },
            DispatcherEvent::Cancel(n) => {
                self.waiters.remove(n);
                DispatcherAction::Ignore
            },
            DispatcherEvent::Shutdown => {
                let closed = self.waiters.drain();
                self.stopped = true;
                DispatcherAction::Stop { failed: None, closed }
            },
            DispatcherEvent::Inbound { kind, parsed } => match frame_step(kind) {
                FrameStep::Handle => match self.waiters.route(parsed.as_ref()) {
                    FrameRoute::Deliver(n) => DispatcherAction::Deliver(n),
                    FrameRoute::Forward => DispatcherAction::Forward,
                },
                FrameStep::Skip => DispatcherAction::Ignore,
                FrameStep::Stop => {
                    let closed = self.waiters.drain();
                    self.stopped = true;
                    DispatcherAction::Stop { failed: None, closed }
                },
            },
        }
    }
}

} // verus!

verus! {

/// `ev` is a text frame whose `id` is `n`.
pub open spec fn is_response_frame(ev: DispatcherEvent, n: u64) -> bool {
    ev matches DispatcherEvent::Inbound { kind, parsed } && kind == FrameKind::Text && frame_id(parsed)
        == Some(n)
}

/// A request accepted while its id is free waits for its response, and the
/// first text frame carrying its id is delivered to it.
pub proof fn lemma_accepted_request_gets_its_response(pending: Set<u64>, n: u64, frame: DispatcherEvent)
    requires
        !pending.contains(n),
        is_response_frame(frame, n),
    ensures
        step_of(pending, DispatcherEvent::Submit { id: Some(n), serialize_error: None }) == Step::Write(n),
        pending_after(pending, DispatcherEvent::Submit { id: Some(n), serialize_error: None }) == pending.insert(n),
        step_of(pending.insert(n), frame) == Step::Deliver(n),
{
}

/// A response is delivered once: after its waiter received it, a second
/// frame with the same id is forwarded as a notification.
pub proof fn lemma_response_delivered_once(pending: Set<u64>, n: u64, frame: DispatcherEvent)
    requires
        pending.contains(n),
        is_response_frame(frame, n),
    ensures
        step_of(pending, frame) == Step::Deliver(n),
        pending_after(pending, frame) == pending.remove(n),
        step_of(pending_after(pending, frame), frame) == Step::Forward,
{
}

/// Delivering the response of one request leaves every other request
/// waiting.
pub proof fn lemma_delivery_keeps_other_waiters(pending: Set<u64>, n: u64, m: u64, frame: DispatcherEvent)
    requires
        pending.contains(n),
        pending.contains(m),
        m != n,
        is_response_frame(frame, n),
    ensures
        pending_after(pending, frame).contains(m),
{
}

/// After a caller gives up on a request, a late response with its id is
/// forwarded as a notification instead of reaching a dead waiter.
pub proof fn lemma_cancelled_request_late_response_forwarded(pending: Set<u64>, n: u64, frame: DispatcherEvent)
    requires
        is_response_frame(frame, n),
    ensures
        step_of(pending_after(pending, DispatcherEvent::Cancel(n)), frame) == Step::Forward,
{
}

/// A request that is written and then given up on leaves the pending
/// waiters as they were before it: repeated timeouts do not grow them.
pub proof fn lemma_cancel_undoes_submit(pending: Set<u64>, n: u64)
    requires
        !pending.contains(n),
    ensures
        pending_after(
            pending_after(pending, DispatcherEvent::Submit { id: Some(n), serialize_error: None }),
            DispatcherEvent::Cancel(n),
        ) == pending,
{
    assert(pending.insert(n).remove(n) =~= pending);
}

/// A request whose id is already in flight is refused, and the waiter
/// already registered under that id stays in place.
pub proof fn lemma_in_flight_id_refused(pending: Set<u64>, n: u64, serialize_error: Option<String>)
    requires
        pending.contains(n),
    ensures
        step_of(pending, DispatcherEvent::Submit { id: Some(n), serialize_error }) == Step::Reject,
        pending_after(pending, DispatcherEvent::Submit { id: Some(n), serialize_error }) == pending,
{
}

/// A text frame whose `id` names no pending request (or that has no
/// numeric `id`) is forwarded and changes no waiter.
pub proof fn lemma_unmatched_frame_forwarded(pending: Set<u64>, frame: DispatcherEvent)
    requires
        frame matches DispatcherEvent::Inbound { kind, parsed } && kind == FrameKind::Text && match frame_id(parsed) {
            Some(n) => !pending.contains(n),
            None => true,
        },
    ensures
        step_of(pending, frame) == Step::Forward,
        pending_after(pending, frame) == pending,
{
}

/// When the dispatcher stops, no waiter is left pending.
pub proof fn lemma_stop_leaves_no_waiter(pending: Set<u64>, ev: DispatcherEvent)
    requires
        step_of(pending, ev) == Step::Stop,
    ensures
        pending_after(pending, ev) == Set::<u64>::empty(),
{
}

} // verus!

verus! {

/// What a direct reader of the stream does with the next item.
#[derive(Debug)]
pub enum ReceiveStep {
    /// Return the frame's text to the caller.
    Deliver,
    /// Skip the frame and read the next one.
    Skip,
    /// Drop the stream and return this error.
    Fail(WebSocketError),
}

/// A reader returns text frames, skips binary, ping, pong and raw frames,
/// and on a close frame or the end of the stream drops the stream with
/// `ConnectionClosed`; on a stream error it drops the stream with
/// `ConnectionFailed("Failed to receive message: <error>")`. `error` is the
/// stream's error message, read only for an error item.
pub fn receive_step(kind: FrameKind, error: &str) -> (r: ReceiveStep)
    ensures
        match step_for(kind) {
            FrameStep::Handle => r is Deliver,
            FrameStep::Skip => r is Skip,
            FrameStep::Stop => if kind == FrameKind::Error {
                r matches ReceiveStep::Fail(e) && (e matches WebSocketError::ConnectionFailed(m) && m@
                    == "Failed to receive message: "@ + error@)
            } else {
                r matches ReceiveStep::Fail(e) && e is ConnectionClosed
            },
        },
{
    match frame_step(kind) {
        FrameStep::Handle => ReceiveStep::Deliver,
        FrameStep::Skip => ReceiveStep::Skip,
        FrameStep::Stop => {
            if kind == FrameKind::Error {
                let mut m = owned("Failed to receive message: ");
                m.append(error);
                ReceiveStep::Fail(WebSocketError::ConnectionFailed(m))
            } else {
                ReceiveStep::Fail(WebSocketError::ConnectionClosed)
            }
        },
    }
}

/// When a request times out: the id to cancel at the dispatcher (when the
/// request id is a `u64`), and the caller's error
/// `Timeout("request_timeout <waited> elapsed")`, `waited` being the
/// timeout as displayed.
pub fn request_timed_out(id: Option<u64>, waited: &str) -> (r: (Option<u64>, WebSocketError))
    ensures
        r.0 == id,
        r.1 matches WebSocketError::Timeout(m) && m@ == "request_timeout "@ + waited@ + " elapsed"@,
{
    let mut m = owned("request_timeout ");
    m.append(waited);
    m.append(" elapsed");
    (id, WebSocketError::Timeout(m))
}

} // verus!

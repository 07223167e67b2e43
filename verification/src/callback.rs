//! The completeness rule of a message handler: both its callbacks must be
//! given.

use vstd::prelude::*;
use crate::error::WebSocketError;
use crate::text::owned;

verus! {

/// A message handler can be built once both callbacks are set; otherwise
/// the first missing one is reported: `Message callback is required`, then
/// `Error callback is required`.
pub fn check_handler_parts(has_message_callback: bool, has_error_callback: bool) -> (r: Result<
    (),
    WebSocketError,
>)
    ensures
        !has_message_callback ==> (r matches Err(WebSocketError::InvalidMessage(m)) && m@
            == "Message callback is required"@),
        has_message_callback && !has_error_callback ==> (r matches Err(
            WebSocketError::InvalidMessage(m),
        ) && m@ == "Error callback is required"@),
        has_message_callback && has_error_callback ==> r is Ok,
{
    if !has_message_callback {
        Err(WebSocketError::InvalidMessage(owned("Message callback is required")))
    } else if !has_error_callback {
        Err(WebSocketError::InvalidMessage(owned("Error callback is required")))
    } else {
        Ok(())
    }
}

} // verus!

verus! {

/// Processing messages in a loop needs a message handler: without one the
/// loop does not start and reports
/// `No message handler set. Use set_message_handler() first.`.
pub fn require_handler(has_handler: bool) -> (r: Result<(), WebSocketError>)
    ensures
        has_handler ==> r is Ok,
        !has_handler ==> (r matches Err(WebSocketError::InvalidMessage(m)) && m@
            == "No message handler set. Use set_message_handler() first."@),
{
    if has_handler {
        Ok(())
    } else {
        Err(WebSocketError::InvalidMessage(owned("No message handler set. Use set_message_handler() first.")))
    }
}

/// What the processing loop does after one message was received and
/// handled (or receiving failed).
#[derive(Debug)]
pub enum ProcessingStep {
    /// Receive the next message.
    Continue,
    /// Leave the loop with this result.
    Finish(Result<(), WebSocketError>),
}

/// The loop goes on after a handled message, ends normally when the
/// connection closed, and ends with any other error.
pub fn processing_step(outcome: Result<(), WebSocketError>) -> (r: ProcessingStep)
    ensures
        match outcome {
            Ok(()) => r is Continue,
            Err(WebSocketError::ConnectionClosed) => r matches ProcessingStep::Finish(Ok(())),
            Err(e) => r == ProcessingStep::Finish(Err(e)),
        },
{
    match outcome {
        Ok(()) => ProcessingStep::Continue,
        Err(WebSocketError::ConnectionClosed) => ProcessingStep::Finish(Ok(())),
        Err(e) => ProcessingStep::Finish(Err(e)),
    }
}

} // verus!

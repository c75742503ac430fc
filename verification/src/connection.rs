//! The per-connection state machine's decision step. The transport loop
//! itself lives outside the library; it hands each observed frame in as
//! an event and performs the returned action: reply on the same stream,
//! keep reading, or tear the connection down for good.

use vstd::prelude::*;
use crate::pipeline::{process_command, spec_process_command};

verus! {

/// One observation of the message stream.
pub enum SocketEvent {
    /// A text frame with this payload arrived.
    TextFrame(String),
    /// A binary frame arrived; it is never decoded as a command.
    BinaryFrame,
    /// A ping frame arrived.
    PingFrame,
    /// A pong frame arrived.
    PongFrame,
    /// The peer sent a close frame.
    CloseFrame,
    /// Reading from the transport failed.
    TransportError,
}

/// What the transport loop must do next.
pub enum StepAction {
    /// Write this reply back on the same stream, then read on.
    Reply(String),
    /// Read the next frame; nothing is written.
    KeepReading,
    /// Terminate the loop; teardown is final and unconditional.
    Stop,
}

/// Decide the loop's next action for one event: text frames drive the
/// full pipeline, other frames are merely observed, and a close frame or
/// transport error ends the loop.
pub fn connection_step(event: &SocketEvent) -> (action: StepAction)
    ensures
        match event {
            SocketEvent::TextFrame(t) => action matches StepAction::Reply(r) && r@
                == spec_process_command(t@),
            SocketEvent::BinaryFrame => action is KeepReading,
            SocketEvent::PingFrame => action is KeepReading,
            SocketEvent::PongFrame => action is KeepReading,
            SocketEvent::CloseFrame => action is Stop,
            SocketEvent::TransportError => action is Stop,
        },
{
    match event {
        SocketEvent::TextFrame(text) => match process_command(text.as_str()) {
            Some(response) => StepAction::Reply(response),
            None => StepAction::KeepReading,
        },
        SocketEvent::BinaryFrame => StepAction::KeepReading,
        SocketEvent::PingFrame => StepAction::KeepReading,
        SocketEvent::PongFrame => StepAction::KeepReading,
        SocketEvent::CloseFrame => StepAction::Stop,
        SocketEvent::TransportError => StepAction::Stop,
    }
}

} // verus!

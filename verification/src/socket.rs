//! The two halves of a client connection: the receiving half, which reads
//! commands from the client, and the sending half, which forwards samples.
//! Each takes one decision per event, here.

use crate::command::{parse_action, spec_parse_action, CommandTarget};
use vstd::prelude::*;

verus! {

/// What the receiving half got from the socket in one read.
#[derive(Clone, Debug)]
pub enum ReceiverEvent {
    /// A text frame that holds a well-formed command; the field is its `action`.
    Command(String),
    /// A text frame that is not a well-formed command.
    Malformed,
    /// A close frame from the client.
    Close,
    /// Any other frame (binary, ping, pong).
    OtherFrame,
    /// The read failed.
    ReadFailed,
    /// The stream has no more frames.
    StreamEnded,
}

/// Why the receiving half ended.
#[derive(Clone, Copy, Debug, PartialEq, Eq, Structural)]
pub enum StopReason {
    ClientClosed,
    ReadFailed,
    StreamEnded,
}

/// What the receiving half does with one event.
#[derive(Clone, Copy, Debug, PartialEq, Eq, Structural)]
pub enum ReceiverAction {
    /// Store the command's value in the named parameter, then read on.
    Retune(CommandTarget),
    /// Report a command whose action names no parameter, then read on.
    ReportUnknownCommand,
    /// Read on without doing anything.
    Ignore,
    /// Leave the reading loop.
    Stop(StopReason),
}

/// The action that the receiving half takes on `event`.
pub open spec fn spec_receiver_step(event: ReceiverEvent) -> ReceiverAction {
    match event {
        ReceiverEvent::Command(action) => match spec_parse_action(action@) {
            Some(target) => ReceiverAction::Retune(target),
            None => ReceiverAction::ReportUnknownCommand,
        },
        ReceiverEvent::Malformed => ReceiverAction::Ignore,
        ReceiverEvent::OtherFrame => ReceiverAction::Ignore,
        ReceiverEvent::Close => ReceiverAction::Stop(StopReason::ClientClosed),
        ReceiverEvent::ReadFailed => ReceiverAction::Stop(StopReason::ReadFailed),
        ReceiverEvent::StreamEnded => ReceiverAction::Stop(StopReason::StreamEnded),
    }
}

/// Decides what the receiving half does with one event.
pub fn receiver_step(event: &ReceiverEvent) -> (action: ReceiverAction)
    ensures
        action == spec_receiver_step(*event),
        action is Stop <==> (event is Close || event is ReadFailed || event is StreamEnded),
{
    match event {
        ReceiverEvent::Command(name) => match parse_action(name.as_str()) {
            Some(target) => ReceiverAction::Retune(target),
            None => ReceiverAction::ReportUnknownCommand,
        },
        ReceiverEvent::Malformed => ReceiverAction::Ignore,
        ReceiverEvent::OtherFrame => ReceiverAction::Ignore,
        ReceiverEvent::Close => ReceiverAction::Stop(StopReason::ClientClosed),
        ReceiverEvent::ReadFailed => ReceiverAction::Stop(StopReason::ReadFailed),
        ReceiverEvent::StreamEnded => ReceiverAction::Stop(StopReason::StreamEnded),
    }
}

/// A command retunes the amplitude exactly when its action is
/// `change_amplitude`, and the frequency exactly when it is `change_frequency`;
/// a command never stops the receiving half.
pub proof fn lemma_command_retunes_named_parameter(action: String)
    ensures
        spec_receiver_step(ReceiverEvent::Command(action)) == ReceiverAction::Retune(
            CommandTarget::Amplitude,
        ) <==> action@ == "change_amplitude"@,
        spec_receiver_step(ReceiverEvent::Command(action)) == ReceiverAction::Retune(
            CommandTarget::Frequency,
        ) <==> action@ == "change_frequency"@,
        !(spec_receiver_step(ReceiverEvent::Command(action)) is Stop),
{
    reveal_strlit("change_amplitude");
    reveal_strlit("change_frequency");
    assert("change_amplitude"@[7] != "change_frequency"@[7]);
}

/// How one round of the sending half went: it waits for a sample from the
/// generator, encodes it as JSON and sends it to the client.
#[derive(Clone, Copy, Debug, PartialEq, Eq, Structural)]
pub enum DeliveryOutcome {
    /// The sample reached the socket.
    Sent,
    /// The sample could not be encoded.
    EncodeFailed,
    /// The socket refused the encoded sample.
    SendFailed,
    /// No sample came from the generator's channel (it lagged or is closed).
    ReceiveFailed,
}

/// What the sending half does after one round.
#[derive(Clone, Copy, Debug, PartialEq, Eq, Structural)]
pub enum SenderAction {
    /// Wait for the next sample.
    Continue,
    /// Report the encoding error, then wait for the next sample.
    ReportEncodeError,
    /// Report the channel error, then wait for the next sample.
    ReportReceiveError,
    /// Leave the sending loop.
    Stop,
}

/// The action that the sending half takes after a round with `outcome`.
pub open spec fn spec_sender_step(outcome: DeliveryOutcome) -> SenderAction {
    match outcome {
        DeliveryOutcome::Sent => SenderAction::Continue,
        DeliveryOutcome::EncodeFailed => SenderAction::ReportEncodeError,
        DeliveryOutcome::SendFailed => SenderAction::Stop,
        DeliveryOutcome::ReceiveFailed => SenderAction::ReportReceiveError,
    }
}

/// Decides what the sending half does after one round.
pub fn sender_step(outcome: DeliveryOutcome) -> (action: SenderAction)
    ensures
        action == spec_sender_step(outcome),
        action == SenderAction::Stop <==> outcome == DeliveryOutcome::SendFailed,
{
    match outcome {
        DeliveryOutcome::Sent => SenderAction::Continue,
        DeliveryOutcome::EncodeFailed => SenderAction::ReportEncodeError,
        DeliveryOutcome::SendFailed => SenderAction::Stop,
        DeliveryOutcome::ReceiveFailed => SenderAction::ReportReceiveError,
    }
}

} // verus!

use atomic_float::AtomicF64;
use signals_visualizer::command::{parse_action, CommandTarget};
use signals_visualizer::signals::{generator_step, GeneratorStep, Signals, SAMPLE_PERIOD_MS};
use signals_visualizer::socket::{
    receiver_step, sender_step, DeliveryOutcome, ReceiverAction, ReceiverEvent, SenderAction,
    StopReason,
};
use std::sync::atomic::{AtomicBool, Ordering};
use std::sync::Arc;

fn make_signal(working: bool) -> (Arc<AtomicBool>, Arc<AtomicF64>, Arc<AtomicF64>, Signals) {
    let working = Arc::new(AtomicBool::new(working));
    let amplitude = Arc::new(AtomicF64::from(5.0));
    let frequency = Arc::new(AtomicF64::from(0.1));
    let signal = Signals::new(working.clone(), amplitude.clone(), frequency.clone());
    (working, amplitude, frequency, signal)
}

#[test]
fn new_keeps_the_shared_cells() {
    let (working, amplitude, frequency, signal) = make_signal(true);
    assert!(Arc::ptr_eq(&working, &signal.is_working));
    assert!(Arc::ptr_eq(&amplitude, &signal.amplitude));
    assert!(Arc::ptr_eq(&frequency, &signal.frequency));
    assert_eq!(signal.amplitude.load(Ordering::Relaxed), 5.0);
    assert_eq!(signal.frequency.load(Ordering::Relaxed), 0.1);
}

#[test]
fn cleared_flag_finishes_the_generator() {
    let (working, _amplitude, _frequency, signal) = make_signal(true);
    assert_eq!(signal.next_step(), GeneratorStep::Emit);
    working.store(false, Ordering::Relaxed);
    assert_eq!(signal.next_step(), GeneratorStep::Finish);
    assert_eq!(signal.next_step(), GeneratorStep::Finish);
}

#[test]
fn generator_step_follows_the_flag() {
    assert_eq!(generator_step(true), GeneratorStep::Emit);
    assert_eq!(generator_step(false), GeneratorStep::Finish);
    assert_eq!(SAMPLE_PERIOD_MS, 10);
}

#[test]
fn parse_action_knows_two_commands() {
    assert_eq!(parse_action("change_amplitude"), Some(CommandTarget::Amplitude));
    assert_eq!(parse_action("change_frequency"), Some(CommandTarget::Frequency));
}

#[test]
fn parse_action_refuses_other_text() {
    assert_eq!(parse_action(""), None);
    assert_eq!(parse_action("change_phase"), None);
    assert_eq!(parse_action("Change_amplitude"), None);
    assert_eq!(parse_action("change_amplitude "), None);
    assert_eq!(parse_action("change_amplitud"), None);
    assert_eq!(parse_action("change_frequencies"), None);
    assert_eq!(parse_action("сhange_amplitude"), None);
}

#[test]
fn receiver_retunes_on_known_commands() {
    let amp = ReceiverEvent::Command("change_amplitude".to_string());
    let freq = ReceiverEvent::Command("change_frequency".to_string());
    assert_eq!(receiver_step(&amp), ReceiverAction::Retune(CommandTarget::Amplitude));
    assert_eq!(receiver_step(&freq), ReceiverAction::Retune(CommandTarget::Frequency));
}

#[test]
fn receiver_reports_unknown_commands() {
    let other = ReceiverEvent::Command("reset".to_string());
    assert_eq!(receiver_step(&other), ReceiverAction::ReportUnknownCommand);
    let empty = ReceiverEvent::Command(String::new());
    assert_eq!(receiver_step(&empty), ReceiverAction::ReportUnknownCommand);
}

#[test]
fn receiver_ignores_malformed_and_other_frames() {
    assert_eq!(receiver_step(&ReceiverEvent::Malformed), ReceiverAction::Ignore);
    assert_eq!(receiver_step(&ReceiverEvent::OtherFrame), ReceiverAction::Ignore);
}

#[test]
fn receiver_stops_when_the_connection_ends() {
    assert_eq!(
        receiver_step(&ReceiverEvent::Close),
        ReceiverAction::Stop(StopReason::ClientClosed)
    );
    assert_eq!(
        receiver_step(&ReceiverEvent::ReadFailed),
        ReceiverAction::Stop(StopReason::ReadFailed)
    );
    assert_eq!(
        receiver_step(&ReceiverEvent::StreamEnded),
        ReceiverAction::Stop(StopReason::StreamEnded)
    );
}

#[test]
fn sender_stops_only_when_sending_fails() {
    assert_eq!(sender_step(DeliveryOutcome::Sent), SenderAction::Continue);
    assert_eq!(sender_step(DeliveryOutcome::EncodeFailed), SenderAction::ReportEncodeError);
    assert_eq!(sender_step(DeliveryOutcome::ReceiveFailed), SenderAction::ReportReceiveError);
    assert_eq!(sender_step(DeliveryOutcome::SendFailed), SenderAction::Stop);
}

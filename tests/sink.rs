use audio_sink::bus::{drain, on_bus_message, BusMessage, DrainStep, ElementState};
use audio_sink::frame::samples_to_bytes;
use audio_sink::guard::LibraryGuard;
use audio_sink::pipeline::{GstreamerSink, HANDOFF_CAPACITY, POOL_DEPTH, SOURCE_ELEMENT, PIPELINE_DESCRIPTION};
use audio_sink::sink::Sink;
use audio_sink::transport::{judge_write, WriteStatus, WriteVerdict};
use audio_sink::{CHANNELS, DEVICE_NAME, SAMPLE_RATE};
use std::sync::mpsc::{sync_channel, TryRecvError};

fn error_message() -> BusMessage {
    BusMessage::Error { element: "dvbaudiosink0".to_string(), message: "no device".to_string() }
}

fn state_message() -> BusMessage {
    BusMessage::StateChanged {
        element: "pipeline0".to_string(),
        old: ElementState::Ready,
        new: ElementState::Paused,
    }
}

#[test]
fn write_hands_over_exact_samples() {
    let (tx, rx) = sync_channel(HANDOFF_CAPACITY);
    let mut sink = GstreamerSink::from_sender(tx);
    assert!(sink.write(&[1, -1, 2, -2]).is_ok());
    assert_eq!(rx.recv().unwrap(), vec![1, -1, 2, -2]);
    assert_eq!(samples_to_bytes(&[1, -1, 2, -2]), vec![1, 0, 255, 255, 2, 0, 254, 255]);
}

#[test]
fn buffers_arrive_in_write_order() {
    let (tx, rx) = sync_channel(HANDOFF_CAPACITY);
    let mut sink = GstreamerSink::from_sender(tx);
    assert!(sink.write(&[10, 20]).is_ok());
    assert_eq!(rx.recv().unwrap(), vec![10, 20]);
    assert!(sink.write(&[-30, 40, 50]).is_ok());
    assert_eq!(rx.recv().unwrap(), vec![-30, 40, 50]);
    let mut joined = samples_to_bytes(&[10, 20]);
    joined.extend(samples_to_bytes(&[-30, 40, 50]));
    assert_eq!(samples_to_bytes(&[10, 20, -30, 40, 50]), joined);
}

#[test]
fn handoff_holds_one_buffer() {
    assert_eq!(HANDOFF_CAPACITY, 1);
    let (tx, rx) = sync_channel(HANDOFF_CAPACITY);
    let mut sink = GstreamerSink::from_sender(tx);
    assert!(sink.write(&[7, 8]).is_ok());
    assert_eq!(rx.try_recv().unwrap(), vec![7, 8]);
    assert_eq!(rx.try_recv(), Err(TryRecvError::Empty));
}

#[test]
fn write_fails_once_worker_is_gone() {
    let (tx, rx) = sync_channel(HANDOFF_CAPACITY);
    let mut sink = GstreamerSink::from_sender(tx);
    drop(rx);
    assert!(sink.write(&[1, 2]).is_err());
}

#[test]
fn start_stop_start_succeeds() {
    let (tx, _rx) = sync_channel(HANDOFF_CAPACITY);
    let mut sink = GstreamerSink::from_sender(tx);
    assert!(sink.start().is_ok());
    assert!(sink.stop().is_ok());
    assert!(sink.start().is_ok());
    assert!(sink.stop().is_ok());
}

#[test]
fn library_init_and_teardown_once() {
    let mut guard = LibraryGuard::new();
    assert!(!guard.is_initialized());
    assert!(guard.acquire());
    assert!(!guard.acquire());
    assert!(guard.is_initialized());
    assert!(guard.release());
    assert!(!guard.release());
    assert!(!guard.acquire());
    assert!(!guard.is_initialized());
}

#[test]
fn release_without_acquire_tears_nothing_down() {
    let mut guard = LibraryGuard::new();
    assert!(!guard.release());
    assert!(guard.acquire());
    assert!(guard.release());
}

#[test]
fn underflow_warns_and_writes_go_on() {
    let v = judge_write(WriteStatus::OutputUnderflowed);
    assert_eq!(v, WriteVerdict::Underrun);
    assert_eq!(judge_write(WriteStatus::Accepted), WriteVerdict::Played);
    assert_eq!(judge_write(WriteStatus::OutputUnderflowed), WriteVerdict::Underrun);
}

#[test]
fn other_transport_error_is_fatal() {
    assert_eq!(judge_write(WriteStatus::Failed { code: -9999 }), WriteVerdict::Fatal { code: -9999 });
}

#[test]
fn drain_stops_at_seeded_error() {
    let (tx, rx) = sync_channel::<Vec<i16>>(HANDOFF_CAPACITY);
    let msgs = vec![error_message(), state_message(), BusMessage::Eos];
    assert_eq!(drain(&msgs), 1);
    let _sink = GstreamerSink::from_sender(tx);
    assert_eq!(rx.try_recv(), Err(TryRecvError::Empty));
}

#[test]
fn drain_reads_past_state_changes_to_eos() {
    let other = BusMessage::Other { element: "audioconvert0".to_string(), kind: "latency".to_string() };
    let msgs = vec![state_message(), other, BusMessage::Eos, error_message()];
    assert_eq!(drain(&msgs), 3);
}

#[test]
fn drain_reads_everything_without_end() {
    assert_eq!(drain(&vec![]), 0);
    assert_eq!(drain(&vec![state_message(), state_message()]), 2);
}

#[test]
fn bus_message_decisions() {
    assert_eq!(on_bus_message(&state_message()), DrainStep::LogStateChange);
    assert_eq!(on_bus_message(&error_message()), DrainStep::StopOnError);
    assert_eq!(on_bus_message(&BusMessage::Eos), DrainStep::StopOnEos);
    let other = BusMessage::Other { element: "appsrc0".to_string(), kind: "stream-start".to_string() };
    assert_eq!(on_bus_message(&other), DrainStep::LogOther);
    assert!(DrainStep::StopOnEos.is_stop());
    assert!(!DrainStep::LogOther.is_stop());
}

#[test]
fn framing_edges() {
    assert_eq!(samples_to_bytes(&[]), Vec::<u8>::new());
    assert_eq!(samples_to_bytes(&[i16::MIN, i16::MAX, 0]), vec![0, 128, 255, 127, 0, 0]);
    assert_eq!(samples_to_bytes(&[256, -256]), vec![0, 1, 0, 255]);
}

#[test]
fn fixed_format() {
    assert_eq!(SAMPLE_RATE, 44100);
    assert_eq!(CHANNELS, 2);
    assert_eq!(DEVICE_NAME, "default");
    assert_eq!(POOL_DEPTH, 64);
    assert_eq!(SOURCE_ELEMENT, "appsrc0");
    assert!(PIPELINE_DESCRIPTION.contains("name=appsrc0"));
    assert!(PIPELINE_DESCRIPTION.contains("channels=2"));
}

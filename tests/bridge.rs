use native_bridge::channel::RecvOutcome;
use native_bridge::dispatch::{buffer_len, fill_output};
use native_bridge::emitter::{shutdown_result, EventEmitter};
use native_bridge::error::BridgeError;
use native_bridge::poll::{attempt_result, classify, CoreEvent, EventEmitterTask, POLL_WAIT_MS};
use std::sync::mpsc;
use std::sync::{Arc, Mutex};
use std::time::{Duration, Instant};

fn emitter_with_channel() -> (EventEmitter, mpsc::Sender<Vec<u8>>, mpsc::Receiver<()>) {
    let (tx, rx) = mpsc::channel::<Vec<u8>>();
    let (stx, srx) = mpsc::channel::<()>();
    (EventEmitter::new(Arc::new(Mutex::new(rx)), stx), tx, srx)
}

fn poll_once(emitter: &EventEmitter) -> Result<Option<CoreEvent>, BridgeError> {
    let task: EventEmitterTask = emitter.poll();
    let result = task.perform();
    task.complete(result)
}

#[test]
fn buffer_len_fits_u32() {
    assert_eq!(buffer_len(0), Some(0));
    assert_eq!(buffer_len(3), Some(3));
    assert_eq!(buffer_len(u32::MAX as usize), Some(u32::MAX));
}

#[test]
fn buffer_len_refuses_longer_than_u32() {
    if usize::MAX as u64 > u32::MAX as u64 {
        assert_eq!(buffer_len(u32::MAX as usize + 1), None);
    }
}

#[test]
fn fill_output_copies_every_byte() {
    let result = vec![9u8, 8, 7, 6];
    let mut output = vec![0u8; result.len()];
    fill_output(&mut output, &result);
    assert_eq!(output, result);
}

#[test]
fn fill_output_empty() {
    let result: Vec<u8> = Vec::new();
    let mut output: Vec<u8> = Vec::new();
    fill_output(&mut output, &result);
    assert!(output.is_empty());
}

#[test]
fn classify_each_outcome() {
    assert_eq!(classify(RecvOutcome::Event(vec![4, 5])), Ok(Some(vec![4, 5])));
    assert_eq!(classify(RecvOutcome::Timeout), Ok(None));
    assert_eq!(classify(RecvOutcome::Disconnected), Err(BridgeError::ChannelDisconnected));
}

#[test]
fn error_messages() {
    assert_eq!(BridgeError::GuardAcquisitionFailure.message(), "Could not obtain lock on receiver");
    assert_eq!(BridgeError::ChannelDisconnected.message(), "Failed to receive event");
    assert_eq!(BridgeError::SignalDeliveryFailure.message(), "sending on a closed channel");
}

#[test]
fn complete_tags_event() {
    let (emitter, _tx, _srx) = emitter_with_channel();
    let task = emitter.poll();
    let ev = task.complete(Ok(Some(vec![1, 2, 3]))).unwrap().unwrap();
    assert_eq!(ev.event, "coreEvent");
    assert_eq!(ev.data, vec![1, 2, 3]);
}

#[test]
fn complete_passes_errors_and_no_data() {
    let (emitter, _tx, _srx) = emitter_with_channel();
    assert!(matches!(emitter.poll().complete(Ok(None)), Ok(None)));
    assert!(matches!(
        emitter.poll().complete(Err(BridgeError::GuardAcquisitionFailure)),
        Err(BridgeError::GuardAcquisitionFailure)
    ));
}

#[test]
fn poll_delivers_produced_event() {
    let (emitter, tx, _srx) = emitter_with_channel();
    tx.send(vec![1, 2, 3]).unwrap();
    let ev = poll_once(&emitter).unwrap().unwrap();
    assert_eq!(ev.event, "coreEvent");
    assert_eq!(ev.data, vec![1, 2, 3]);
}

#[test]
fn polls_deliver_each_event_once_in_order() {
    let (emitter, tx, _srx) = emitter_with_channel();
    for i in 0..5u8 {
        tx.send(vec![i, i + 10]).unwrap();
    }
    for i in 0..5u8 {
        let ev = poll_once(&emitter).unwrap().unwrap();
        assert_eq!(ev.data, vec![i, i + 10]);
    }
    assert!(matches!(poll_once(&emitter), Ok(None)));
}

#[test]
fn timeout_is_no_data_and_not_terminal() {
    let (emitter, tx, _srx) = emitter_with_channel();
    let start = Instant::now();
    assert!(matches!(poll_once(&emitter), Ok(None)));
    assert!(start.elapsed() >= Duration::from_millis(POLL_WAIT_MS));
    tx.send(vec![7]).unwrap();
    let ev = poll_once(&emitter).unwrap().unwrap();
    assert_eq!(ev.data, vec![7]);
}

#[test]
fn poll_wait_is_one_hundred_ms() {
    assert_eq!(POLL_WAIT_MS, 100);
}

#[test]
fn disconnection_is_terminal() {
    let (emitter, tx, _srx) = emitter_with_channel();
    tx.send(vec![5]).unwrap();
    drop(tx);
    assert_eq!(poll_once(&emitter).unwrap().unwrap().data, vec![5]);
    for _ in 0..3 {
        assert!(matches!(poll_once(&emitter), Err(BridgeError::ChannelDisconnected)));
    }
}

#[test]
fn shutdown_fires_once_with_listener() {
    let (mut emitter, _tx, srx) = emitter_with_channel();
    assert_eq!(emitter.shutdown(), Ok(()));
    assert_eq!(emitter.shutdown(), Err(BridgeError::SignalDeliveryFailure));
    assert_eq!(srx.try_recv(), Ok(()));
    assert_eq!(srx.try_recv(), Err(mpsc::TryRecvError::Empty));
}

#[test]
fn shutdown_twice_without_listener_fails_twice() {
    let (mut emitter, _tx, srx) = emitter_with_channel();
    drop(srx);
    assert_eq!(emitter.shutdown(), Err(BridgeError::SignalDeliveryFailure));
    assert_eq!(emitter.shutdown(), Err(BridgeError::SignalDeliveryFailure));
}

#[test]
fn shutdown_result_maps_delivery() {
    assert_eq!(shutdown_result(true), Ok(()));
    assert_eq!(shutdown_result(false), Err(BridgeError::SignalDeliveryFailure));
}

#[test]
fn attempt_without_guard_is_guard_failure() {
    assert_eq!(attempt_result(None), Err(BridgeError::GuardAcquisitionFailure));
}

#[test]
fn attempt_with_guard_classifies_outcome() {
    assert_eq!(attempt_result(Some(RecvOutcome::Event(vec![3]))), Ok(Some(vec![3])));
    assert_eq!(attempt_result(Some(RecvOutcome::Timeout)), Ok(None));
    assert_eq!(attempt_result(Some(RecvOutcome::Disconnected)), Err(BridgeError::ChannelDisconnected));
}

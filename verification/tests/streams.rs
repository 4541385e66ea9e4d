use bytes::Bytes;
use cameras::channel::{enqueue, take_pending, Channel};
use cameras::error::Error;
use cameras::frame::{Frame, FrameQuality, PixelFormat};
use cameras::pump::{after_stream_read, capture_outcome, next_pump_action, PumpAction, StreamRead};
use cameras::registry::{
    file_sink, get_or_create_sink, publish_frame, remove_sink, unfile_sink, FrameSlot, Registry,
};
use cameras::stream::{StreamController, StreamEvent, StreamEventPayload, StreamStatus};
use cameras::stream_ids::StreamIds;
use std::time::Duration;

fn frame(width: u32, fill: u8) -> Frame {
    Frame {
        width,
        height: 1,
        stride: width * 4,
        timestamp: Duration::from_millis(5),
        pixel_format: PixelFormat::Bgra8,
        quality: FrameQuality::Intact,
        plane_primary: Bytes::from(vec![fill; (width * 4) as usize]),
        plane_secondary: Bytes::new(),
    }
}

#[test]
fn slot_snapshot_returns_the_last_publish() {
    let mut slot = FrameSlot::new();
    assert!(slot.snapshot().is_none());
    slot.publish(frame(2, 1));
    slot.publish(frame(3, 2));
    let (latest, counter) = slot.snapshot().unwrap();
    assert_eq!(latest.width, 3);
    assert_eq!(&latest.plane_primary[..], &[2u8; 12][..]);
    assert_eq!(counter, 2);
}

#[test]
fn sinks_are_shared_per_id() {
    let registry = Registry::new();
    let sink = get_or_create_sink(&registry, 4);
    assert!(registry.snapshot(4).is_none());
    publish_frame(&sink, frame(2, 7));
    let again = get_or_create_sink(&registry, 4);
    let (seen, counter) = again.snapshot_with_counter().unwrap();
    assert_eq!(seen.width, 2);
    assert_eq!(counter, 1);
    let (via_registry, c) = registry.clone().snapshot(4).unwrap();
    assert_eq!((via_registry.width, c), (2, 1));
    assert!(registry.snapshot(5).is_none());
}

#[test]
fn removed_sink_keeps_working_but_is_forgotten() {
    let registry = Registry::new();
    let sink = get_or_create_sink(&registry, 1);
    remove_sink(&registry, 1);
    publish_frame(&sink, frame(1, 3));
    assert_eq!(sink.snapshot_with_counter().unwrap().1, 1);
    assert!(registry.snapshot(1).is_none());
    let fresh = get_or_create_sink(&registry, 1);
    assert!(fresh.snapshot_with_counter().is_none());
    remove_sink(&registry, 99);
}

#[test]
fn pump_decisions() {
    assert_eq!(next_pump_action(true, true, true), PumpAction::Stop);
    assert_eq!(next_pump_action(false, true, false), PumpAction::ServeCaptures);
    assert_eq!(next_pump_action(false, false, false), PumpAction::Park);
    assert_eq!(next_pump_action(false, false, true), PumpAction::Pull);
    assert!(matches!(after_stream_read(Ok(frame(1, 1))), StreamRead::Deliver(f) if f.width == 1));
    assert!(matches!(after_stream_read(Err(Error::Timeout)), StreamRead::Retry));
    assert!(matches!(after_stream_read(Err(Error::DeviceInUse)), StreamRead::Stop));
    let outcome = capture_outcome(Ok(frame(2, 9)));
    assert_eq!(outcome.for_sink.unwrap().width, 2);
    assert_eq!(&outcome.reply.unwrap().plane_primary[..], &[9u8; 8][..]);
    let failed = capture_outcome(Err(Error::Timeout));
    assert!(failed.for_sink.is_none() && failed.reply.is_none());
}

#[test]
fn latest_source_wins() {
    let mut controller = StreamController::new();
    let first = controller.source_changed(Some("cam A".to_string()));
    assert!(matches!(&first.status, StreamStatus::Connecting { label } if label == "cam A"));
    let first_gen = first.connect.unwrap();
    let second = controller.source_changed(Some("cam B".to_string()));
    let second_gen = second.connect.unwrap();
    assert_ne!(first_gen, second_gen);
    let stale: StreamEvent<u8> = StreamEvent {
        generation: first_gen,
        payload: StreamEventPayload::Connected { pump: 1, label: "cam A".to_string() },
    };
    assert!(controller.accept(stale).is_none());
    let current = StreamEvent {
        generation: second_gen,
        payload: StreamEventPayload::Connected { pump: 2u8, label: "cam B".to_string() },
    };
    let accepted = controller.accept(current).unwrap();
    assert_eq!(accepted.pump, Some(2));
    assert!(matches!(accepted.status, StreamStatus::Streaming { label } if label == "cam B"));
    let failed: StreamEvent<u8> = StreamEvent {
        generation: second_gen,
        payload: StreamEventPayload::Failed { error: Error::PermissionDenied },
    };
    let accepted = controller.accept(failed).unwrap();
    assert!(accepted.pump.is_none());
    assert!(matches!(accepted.status, StreamStatus::Failed { error: Error::PermissionDenied }));
    let cleared = controller.source_changed(None);
    assert!(matches!(cleared.status, StreamStatus::Idle));
    assert!(cleared.connect.is_none());
}

#[test]
fn stream_ids_are_monotonic_and_never_reused() {
    let mut ids = StreamIds::new();
    assert_eq!(ids.add(), 0);
    assert_eq!(ids.add(), 1);
    assert_eq!(ids.add(), 2);
    ids.remove(1);
    assert_eq!(ids.ids(), &vec![0, 2]);
    ids.remove(7);
    assert_eq!(ids.ids(), &vec![0, 2]);
    assert_eq!(ids.add(), 3);
    assert_eq!(ids.ids(), &vec![0, 2, 3]);
    assert_eq!(ids.next_id(), 4);
}

#[test]
fn statuses_compare_by_variant_label_and_error_text() {
    let connecting = |label: &str| StreamStatus::Connecting { label: label.to_string() };
    assert_eq!(StreamStatus::Idle, StreamStatus::Idle);
    assert_eq!(connecting("cam A"), connecting("cam A"));
    assert_ne!(connecting("cam A"), connecting("cam B"));
    assert_ne!(connecting("cam A"), StreamStatus::Streaming { label: "cam A".to_string() });
    assert_ne!(StreamStatus::Idle, connecting(""));
    let failed = |error: Error| StreamStatus::Failed { error };
    assert_eq!(failed(Error::DeviceInUse), failed(Error::DeviceInUse));
    assert_ne!(failed(Error::DeviceInUse), failed(Error::Timeout));
    let backend = |message: &str| Error::Backend { platform: "macos", message: message.to_string() };
    assert_eq!(failed(backend("lock failed")), failed(backend("lock failed")));
    assert_ne!(failed(backend("lock failed")), failed(backend("other")));
}

#[test]
fn statuses_describe_themselves() {
    assert_eq!(StreamStatus::Idle.describe(), "Idle");
    assert_eq!(
        StreamStatus::Connecting { label: "cam A".to_string() }.describe(),
        "Connecting to cam A..."
    );
    assert_eq!(StreamStatus::Streaming { label: "cam A".to_string() }.describe(), "Streaming: cam A");
    assert_eq!(
        StreamStatus::Failed { error: Error::Timeout }.describe(),
        "Open failed: timed out waiting for a frame"
    );
}

struct Payload(u32);

#[test]
fn channel_drains_in_send_order_across_clones() {
    let channel: Channel<Payload> = Channel::new();
    assert!(channel.drain().is_empty());
    let producer = channel.clone();
    producer.send(Payload(1));
    channel.send(Payload(2));
    producer.send(Payload(3));
    let drained: Vec<u32> = channel.drain().into_iter().map(|p| p.0).collect();
    assert_eq!(drained, vec![1, 2, 3]);
    assert!(producer.drain().is_empty());
}

#[test]
fn pending_values_are_taken_in_send_order() {
    let mut pending: Vec<Payload> = Vec::new();
    enqueue(&mut pending, Payload(7));
    enqueue(&mut pending, Payload(8));
    let taken: Vec<u32> = take_pending(&mut pending).into_iter().map(|p| p.0).collect();
    assert_eq!(taken, vec![7, 8]);
    assert!(pending.is_empty());
}

#[test]
fn filing_keeps_existing_slots_and_unfiling_drops_only_that_id() {
    let mut slots = std::collections::HashMap::new();
    let first = file_sink(&mut slots, 3);
    assert_eq!(slots.len(), 1);
    publish_frame(&first, frame(2, 1));
    let again = file_sink(&mut slots, 3);
    assert_eq!(slots.len(), 1);
    assert_eq!(again.snapshot_with_counter().map(|(_, c)| c), Some(1));
    let other = file_sink(&mut slots, 4);
    assert_eq!(slots.len(), 2);
    assert!(other.snapshot_with_counter().is_none());
    unfile_sink(&mut slots, 3);
    assert_eq!(slots.len(), 1);
    assert!(slots.contains_key(&4));
    unfile_sink(&mut slots, 9);
    assert_eq!(slots.len(), 1);
}

use batlights::codec::{encode_color, encode_mic, encode_power, Frame};
use batlights::controller::{Color, Controller, MockController};
use batlights::dispatch::{deliver_all, Courier, RecordingTransport, TransportEvent};

fn written(t: &RecordingTransport) -> Vec<Frame> {
    t.events
        .iter()
        .filter_map(|e| match e {
            TransportEvent::Write { frame, .. } => Some(*frame),
            TransportEvent::Disconnect { .. } => None,
        })
        .collect()
}

#[test]
fn order_kept_when_first_write_fails() {
    let a = encode_power(false);
    let b = encode_color(Color { r: 1, g: 2, b: 3 });
    let c = encode_mic(9);
    let mut device = RecordingTransport::failing_at(vec![0]);
    let report = deliver_all(&mut device, &vec![a, b, c]);
    assert_eq!(
        device.events,
        vec![
            TransportEvent::Write { frame: a, ok: false },
            TransportEvent::Write { frame: b, ok: true },
            TransportEvent::Write { frame: c, ok: true },
            TransportEvent::Disconnect { ok: true },
        ]
    );
    assert_eq!(report.failures, 1);
    assert!(report.disconnect.is_ok());
}

#[test]
fn empty_batch_still_disconnects_once() {
    let mut device = RecordingTransport::new();
    let report = deliver_all(&mut device, &Vec::new());
    assert_eq!(device.events, vec![TransportEvent::Disconnect { ok: true }]);
    assert_eq!(report.failures, 0);
}

#[test]
fn courier_tears_down_only_once_after_writes() {
    let mut device = RecordingTransport::failing_at(vec![1]);
    let mut courier = Courier::new();
    assert!(courier.forward(&mut device, encode_power(true)).is_ok());
    assert!(courier.forward(&mut device, encode_power(false)).is_err());
    assert_eq!(courier.failures(), 1);
    assert!(!courier.finished());
    assert!(courier.finish(&mut device).is_some());
    assert!(courier.finish(&mut device).is_none());
    assert!(courier.finished());
    assert_eq!(written(&device), vec![encode_power(true), encode_power(false)]);
    assert_eq!(device.events.last(), Some(&TransportEvent::Disconnect { ok: true }));
    assert_eq!(device.events.len(), 3);
}

#[test]
fn mock_controller_accepts_every_command() {
    let mut device = MockController::new();
    assert_eq!(device.set_power(true), Ok(()));
    assert_eq!(device.set_color(Color { r: 255, g: 0, b: 0 }), Ok(()));
    assert_eq!(device.set_pattern(250), Ok(()));
    assert_eq!(device.set_mic(200), Ok(()));
}

use batlights::cli::{command_frame, run_once, Commands, PowerState};
use batlights::codec::{encode_mic, encode_pattern, encode_power};
use batlights::dispatch::{RecordingTransport, TransportEvent};

#[test]
fn color_command_sends_one_frame_then_disconnects() {
    let mut device = RecordingTransport::new();
    let report = run_once(&mut device, &Commands::Color { r: 255, g: 0, b: 0 }).unwrap();
    assert_eq!(device.events.len(), 2);
    let f = match device.events[0] {
        TransportEvent::Write { frame, ok } => {
            assert!(ok);
            frame
        }
        TransportEvent::Disconnect { .. } => panic!("the frame must be written first"),
    };
    assert_eq!(f[0], 0x7B);
    assert_eq!(f[2], 0x07);
    assert_eq!(&f[3..6], &[255, 0, 0]);
    assert_eq!(&f[6..], &[0x00, 0xFF, 0xBF]);
    assert_eq!(device.events[1], TransportEvent::Disconnect { ok: true });
    assert_eq!(report.failures, 0);
}

#[test]
fn failed_one_shot_write_still_disconnects() {
    let mut device = RecordingTransport::failing_at(vec![0]);
    let report = run_once(&mut device, &Commands::Mic { sensitivity: 3 }).unwrap();
    assert_eq!(report.failures, 1);
    assert_eq!(
        device.events,
        vec![
            TransportEvent::Write { frame: encode_mic(3), ok: false },
            TransportEvent::Disconnect { ok: true },
        ]
    );
}

#[test]
fn interactive_command_sends_nothing() {
    let mut device = RecordingTransport::new();
    assert!(run_once(&mut device, &Commands::Tui).is_none());
    assert!(device.events.is_empty());
    assert_eq!(command_frame(&Commands::Tui), None);
}

#[test]
fn command_frames_match_codec() {
    assert_eq!(command_frame(&Commands::Power { state: PowerState::On }), Some(encode_power(true)));
    assert_eq!(command_frame(&Commands::Power { state: PowerState::Off }), Some(encode_power(false)));
    assert_eq!(command_frame(&Commands::Pattern { index: 255 }), Some(encode_pattern(210)));
    assert_eq!(command_frame(&Commands::Mic { sensitivity: 255 }), Some(encode_mic(255)));
}

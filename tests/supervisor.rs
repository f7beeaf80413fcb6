use stream_pipeline::stream::{FatalError, StreamDescriptor, DEFAULT_LATENCY_MS};
use stream_pipeline::supervisor::{Action, Event, Phase, Supervisor};

fn decoded(track: u32, rate: u32, channels: u32, frames: usize) -> Event {
    Event::Decoded { track, descriptor: StreamDescriptor { rate, channels }, frames }
}

#[test]
fn new_supervisor_is_idle() {
    let s = Supervisor::new(DEFAULT_LATENCY_MS);
    assert_eq!(s.phase, Phase::Idle);
    assert_eq!(s.descriptor, None);
}

#[test]
fn decode_error_on_third_of_five_units() {
    let mut s = Supervisor::new(DEFAULT_LATENCY_MS);
    assert_eq!(s.step(Event::Opened { track: 1 }), Action::Nothing);
    assert_eq!(s.phase, Phase::AwaitingFirstFrame);
    let units = [
        decoded(1, 44100, 2, 1152),
        decoded(1, 44100, 2, 1152),
        Event::DecodeFailed,
        decoded(1, 44100, 2, 1152),
        decoded(1, 44100, 2, 1152),
    ];
    let actions: Vec<Action> = units.iter().map(|e| s.step(*e)).collect();
    assert_eq!(
        actions,
        vec![
            Action::Configure { capacity: 17640 },
            Action::Write,
            Action::ReportDecodeError,
            Action::Write,
            Action::Write,
        ]
    );
    let delivered = actions
        .iter()
        .filter(|a| matches!(a, Action::Write | Action::Configure { .. }))
        .count();
    assert_eq!(delivered, 4);
    assert_eq!(s.phase, Phase::Streaming);
    assert_eq!(s.step(Event::Exhausted), Action::Pause);
    assert_eq!(s.phase, Phase::Draining);
    assert_eq!(s.step(Event::Paused), Action::Nothing);
    assert_eq!(s.phase, Phase::Idle);
    assert_eq!(s.descriptor, None);
}

#[test]
fn foreign_track_and_empty_frames_are_discarded() {
    let mut s = Supervisor::new(DEFAULT_LATENCY_MS);
    s.step(Event::Opened { track: 0 });
    let before = s;
    assert_eq!(s.step(decoded(3, 44100, 2, 1152)), Action::Discard);
    assert_eq!(s.step(decoded(0, 44100, 2, 0)), Action::Discard);
    assert_eq!(s, before);
}

#[test]
fn descriptor_change_resizes_the_ring() {
    let mut s = Supervisor::new(DEFAULT_LATENCY_MS);
    s.step(Event::Opened { track: 0 });
    assert_eq!(s.step(decoded(0, 44100, 2, 10)), Action::Configure { capacity: 17640 });
    assert_eq!(s.step(decoded(0, 48000, 1, 10)), Action::Configure { capacity: 9600 });
    assert_eq!(s.descriptor, Some(StreamDescriptor { rate: 48000, channels: 1 }));
    assert_eq!(s.step(decoded(0, 48000, 1, 10)), Action::Write);
}

#[test]
fn invalid_descriptor_is_fatal() {
    let mut s = Supervisor::new(DEFAULT_LATENCY_MS);
    s.step(Event::Opened { track: 0 });
    assert_eq!(s.step(decoded(0, 0, 2, 10)), Action::Fail(FatalError::InvalidDescriptor));
    assert_eq!(s.phase, Phase::Fatal);
    assert_eq!(s.step(decoded(0, 44100, 2, 10)), Action::Nothing);
}

#[test]
fn setup_failure_is_fatal() {
    let mut s = Supervisor::new(DEFAULT_LATENCY_MS);
    assert_eq!(s.step(Event::SetupFailed(FatalError::NoDevice)), Action::Fail(FatalError::NoDevice));
    assert_eq!(s.phase, Phase::Fatal);
}

#[test]
fn stream_error_is_fatal() {
    let mut s = Supervisor::new(DEFAULT_LATENCY_MS);
    s.step(Event::Opened { track: 0 });
    s.step(decoded(0, 44100, 2, 10));
    assert_eq!(s.step(Event::StreamError), Action::Fail(FatalError::StreamFailed));
    assert_eq!(s.phase, Phase::Fatal);
    assert_eq!(s.step(Event::StreamError), Action::Nothing);
}

#[test]
fn events_out_of_phase_do_nothing() {
    let mut s = Supervisor::new(DEFAULT_LATENCY_MS);
    assert_eq!(s.step(decoded(0, 44100, 2, 10)), Action::Nothing);
    assert_eq!(s.step(Event::DecodeFailed), Action::Nothing);
    assert_eq!(s.step(Event::Exhausted), Action::Nothing);
    assert_eq!(s.step(Event::Paused), Action::Nothing);
    assert_eq!(s, Supervisor::new(DEFAULT_LATENCY_MS));
}

#[test]
fn units_of_the_played_track_are_decoded() {
    let mut s = Supervisor::new(DEFAULT_LATENCY_MS);
    assert_eq!(s.step(Event::Unit { track: 2 }), Action::Nothing);
    s.step(Event::Opened { track: 2 });
    assert_eq!(s.step(Event::Unit { track: 2 }), Action::Decode);
    assert_eq!(s.step(Event::Unit { track: 5 }), Action::Discard);
    assert_eq!(s.phase, Phase::AwaitingFirstFrame);
}

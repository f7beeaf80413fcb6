//! The pipeline supervisor: a state machine from the events of one stream
//! (device setup, decoder results, end of stream, device errors) to the
//! action the pipeline takes next. Whoever drives the decoder and the device
//! reports each event and performs the action returned.

use crate::stream::{capacity_for, ring_capacity, FatalError, StreamDescriptor};
use vstd::prelude::*;

verus! {

#[derive(Clone, Copy, Debug, PartialEq, Eq, Structural)]
pub enum Phase {
    Idle,
    AwaitingFirstFrame,
    Streaming,
    Draining,
    Fatal,
}

#[derive(Clone, Copy, Debug, PartialEq, Eq, Structural)]
pub enum Event {
    /// The device started with its provisional configuration; frames of
    /// `track` are the ones to play.
    Opened { track: u32 },
    /// The device could not be set up.
    SetupFailed(FatalError),
    /// The source yielded the next compressed unit, of `track`.
    Unit { track: u32 },
    /// The decoder produced a frame of `frames` samples per channel.
    Decoded { track: u32, descriptor: StreamDescriptor, frames: usize },
    /// The decoder failed on one unit.
    DecodeFailed,
    /// The decoder has no more units.
    Exhausted,
    /// The device was paused after the stream drained.
    Paused,
    /// The device reported an error while running.
    StreamError,
}

#[derive(Clone, Copy, Debug, PartialEq, Eq, Structural)]
pub enum Action {
    /// Nothing to do.
    Nothing,
    /// Decode the unit.
    Decode,
    /// Drop the unit or frame: it belongs to another track, or holds no
    /// samples.
    Discard,
    /// Report the decode error and go on with the next unit.
    ReportDecodeError,
    /// Replace the ring by a fresh one of `capacity` samples, then write the
    /// frame into it.
    Configure { capacity: usize },
    /// Write the frame into the current ring.
    Write,
    /// Stop feeding and pause the device.
    Pause,
    /// Stop: the stream cannot produce output.
    Fail(FatalError),
}

#[derive(Clone, Copy, Debug, PartialEq, Eq, Structural)]
pub struct Supervisor {
    pub phase: Phase,
    /// The track whose frames are played.
    pub track: u32,
    /// The descriptor the current ring was sized for.
    pub descriptor: Option<StreamDescriptor>,
    /// The latency window the ring is sized for.
    pub latency_ms: u32,
}

/// The ring capacity for `d`, or the error that forbids one: a ring needs a
/// positive capacity below the largest `usize`.
pub open spec fn sizing(d: StreamDescriptor, latency_ms: u32) -> Result<usize, FatalError> {
    if !d.valid() {
        Err(FatalError::InvalidDescriptor)
    } else if capacity_for(d, latency_ms as int) >= usize::MAX {
        Err(FatalError::CapacityOverflow)
    } else if capacity_for(d, latency_ms as int) == 0 {
        Err(FatalError::InvalidDescriptor)
    } else {
        Ok(capacity_for(d, latency_ms as int) as usize)
    }
}

/// The phases in which decoder events are taken.
pub open spec fn feeding(p: Phase) -> bool {
    p == Phase::AwaitingFirstFrame || p == Phase::Streaming
}

/// The next state and the action for event `e` in state `s`.
pub open spec fn next(s: Supervisor, e: Event) -> (Supervisor, Action) {
    match e {
        Event::Opened { track } => if s.phase == Phase::Idle {
            (
                Supervisor { phase: Phase::AwaitingFirstFrame, track, descriptor: None, ..s },
                Action::Nothing,
            )
        } else {
            (s, Action::Nothing)
        },
        Event::SetupFailed(err) => if s.phase == Phase::Idle {
            (Supervisor { phase: Phase::Fatal, ..s }, Action::Fail(err))
        } else {
            (s, Action::Nothing)
        },
        Event::Unit { track } => if !feeding(s.phase) {
            (s, Action::Nothing)
        } else if track != s.track {
            (s, Action::Discard)
        } else {
            (s, Action::Decode)
        },
        Event::Decoded { track, descriptor, frames } => if !feeding(s.phase) {
            (s, Action::Nothing)
        } else if track != s.track || frames == 0 {
            (s, Action::Discard)
        } else if s.descriptor == Some(descriptor) {
            (s, Action::Write)
        } else {
            match sizing(descriptor, s.latency_ms) {
                Ok(capacity) => (
                    Supervisor { phase: Phase::Streaming, descriptor: Some(descriptor), ..s },
                    Action::Configure { capacity },
                ),
                Err(err) => (Supervisor { phase: Phase::Fatal, ..s }, Action::Fail(err)),
            }
        },
        Event::DecodeFailed => if feeding(s.phase) {
            (s, Action::ReportDecodeError)
        } else {
            (s, Action::Nothing)
        },
        Event::Exhausted => if feeding(s.phase) {
            (Supervisor { phase: Phase::Draining, ..s }, Action::Pause)
        } else {
            (s, Action::Nothing)
        },
        Event::Paused => if s.phase == Phase::Draining {
            (Supervisor { phase: Phase::Idle, descriptor: None, ..s }, Action::Nothing)
        } else {
            (s, Action::Nothing)
        },
        Event::StreamError => if s.phase == Phase::Fatal {
            (s, Action::Nothing)
        } else {
            (Supervisor { phase: Phase::Fatal, ..s }, Action::Fail(FatalError::StreamFailed))
        },
    }
}

/// The state reached from `s` after each of `events` in turn.
pub open spec fn run(s: Supervisor, events: Seq<Event>) -> Supervisor
    decreases events.len(),
{
    if events.len() == 0 {
        s
    } else {
        next(run(s, events.drop_last()), events.last()).0
    }
}

/// Every event but a decode error.
pub open spec fn not_decode_failure(e: Event) -> bool {
    e != Event::DecodeFailed
}

/// A decode error is absorbed: the state stays as it was, the stream is not
/// failed, and while frames are taken the error is reported.
pub proof fn lemma_decode_error_absorbed(s: Supervisor)
    ensures
        next(s, Event::DecodeFailed).0 == s,
        feeding(s.phase) ==> next(s, Event::DecodeFailed).1 == Action::ReportDecodeError,
        !feeding(s.phase) ==> next(s, Event::DecodeFailed).1 == Action::Nothing,
{
}

/// Over any run of events, decode errors change nothing: the same events
/// without them lead to the same state.
pub proof fn lemma_run_ignores_decode_errors(s: Supervisor, events: Seq<Event>)
    ensures
        run(s, events) == run(s, events.filter(|e: Event| not_decode_failure(e))),
    decreases events.len(),
{
    reveal(Seq::filter);
    if events.len() > 0 {
        lemma_run_ignores_decode_errors(s, events.drop_last());
        let kept = events.drop_last().filter(|e: Event| not_decode_failure(e));
        if not_decode_failure(events.last()) {
            assert(kept.push(events.last()).drop_last() =~= kept);
        }
    }
}

/// A frame of zero samples changes nothing and asks for no write.
pub proof fn lemma_empty_frame_no_op(s: Supervisor, track: u32, descriptor: StreamDescriptor)
    ensures
        next(s, Event::Decoded { track, descriptor, frames: 0 }).0 == s,
        next(s, Event::Decoded { track, descriptor, frames: 0 }).1 == Action::Discard
            || next(s, Event::Decoded { track, descriptor, frames: 0 }).1 == Action::Nothing,
{
}

fn is_feeding(p: Phase) -> (r: bool)
    ensures
        r == feeding(p),
{
    match p {
        Phase::AwaitingFirstFrame | Phase::Streaming => true,
        _ => false,
    }
}

fn same_descriptor(a: Option<StreamDescriptor>, b: StreamDescriptor) -> (r: bool)
    ensures
        r == (a == Some(b)),
{
    match a {
        Some(d) => d.rate == b.rate && d.channels == b.channels,
        None => false,
    }
}

/// The ring capacity for a stream of descriptor `d`, checked for use.
pub fn size_ring(d: StreamDescriptor, latency_ms: u32) -> (r: Result<usize, FatalError>)
    ensures
        r == sizing(d, latency_ms),
{
    match ring_capacity(d, latency_ms) {
        Ok(c) => if c == usize::MAX {
            Err(FatalError::CapacityOverflow)
        } else if c == 0 {
            Err(FatalError::InvalidDescriptor)
        } else {
            Ok(c)
        },
        Err(e) => Err(e),
    }
}

impl Supervisor {
    /// An idle supervisor whose rings hold `latency_ms` of audio.
    pub fn new(latency_ms: u32) -> (r: Self)
        ensures
            r == (Supervisor { phase: Phase::Idle, track: 0, descriptor: None, latency_ms }),
    {
        Supervisor { phase: Phase::Idle, track: 0, descriptor: None, latency_ms }
    }

    /// Takes event `e`: moves to the next state and returns the action.
    pub fn step(&mut self, e: Event) -> (r: Action)
        ensures
            (*final(self), r) == next(*old(self), e),
    {
        match e {
            Event::Opened { track } => {
                if let Phase::Idle = self.phase {
                    self.phase = Phase::AwaitingFirstFrame;
                    self.track = track;
                    self.descriptor = None;
                }
                Action::Nothing
            },
            Event::SetupFailed(err) => {
                if let Phase::Idle = self.phase {
                    self.phase = Phase::Fatal;
                    Action::Fail(err)
                } else {
                    Action::Nothing
                }
            },
            Event::Unit { track } => {
                if !is_feeding(self.phase) {
                    Action::Nothing
                } else if track != self.track {
                    Action::Discard
                } else {
                    Action::Decode
                }
            },
            Event::Decoded { track, descriptor, frames } => {
                if !is_feeding(self.phase) {
                    Action::Nothing
                } else if track != self.track || frames == 0 {
                    Action::Discard
                } else if same_descriptor(self.descriptor, descriptor) {
                    Action::Write
                } else {
                    match size_ring(descriptor, self.latency_ms) {
                        Ok(capacity) => {
                            self.phase = Phase::Streaming;
                            self.descriptor = Some(descriptor);
                            Action::Configure { capacity }
                        },
                        Err(err) => {
                            self.phase = Phase::Fatal;
                            Action::Fail(err)
                        },
                    }
                }
            },
            Event::DecodeFailed => {
                if is_feeding(self.phase) {
                    Action::ReportDecodeError
                } else {
                    Action::Nothing
                }
            },
            Event::Exhausted => {
                if is_feeding(self.phase) {
                    self.phase = Phase::Draining;
                    Action::Pause
                } else {
                    Action::Nothing
                }
            },
            Event::Paused => {
                if let Phase::Draining = self.phase {
                    self.phase = Phase::Idle;
                    self.descriptor = None;
                }
                Action::Nothing
            },
            Event::StreamError => {
                if let Phase::Fatal = self.phase {
                    Action::Nothing
                } else {
                    self.phase = Phase::Fatal;
                    Action::Fail(FatalError::StreamFailed)
                }
            },
        }
    }
}

} // verus!

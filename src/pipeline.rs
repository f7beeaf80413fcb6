//! The pipeline handle: the supervisor together with the feeder of the
//! current ring. Each decoder event goes through `handle`, which decides
//! what to do with it and, for a frame to be played, loads it into the
//! feeder (on a fresh ring where the stream's format calls for one).

use crate::feeder::Feeder;
use crate::interleave::{is_interleaving, planes_cover};
use crate::ring::{can_hold, ring, RingReader};
use crate::stream::FatalError;
use crate::supervisor::{next, Action, Event, Phase, Supervisor};
use vstd::prelude::*;

verus! {

/// Samples per channel that event `e` carries.
pub open spec fn frames_of(e: Event) -> nat {
    match e {
        Event::Decoded { frames, .. } => frames as nat,
        _ => 0,
    }
}

/// A ring of `capacity` samples is asked for and cannot be made.
pub open spec fn ring_refused<T>(a: Action) -> bool {
    a matches Action::Configure { capacity } && !can_hold::<T>(capacity)
}

#[verifier::reject_recursive_types(T)]
pub struct Pipeline<T> {
    supervisor: Supervisor,
    feeder: Option<Feeder<T>>,
}

impl<T: Copy + Default> Pipeline<T> {
    pub closed spec fn state(&self) -> Supervisor {
        self.supervisor
    }

    /// Every sample loaded into the current ring, in order.
    pub closed spec fn loaded(&self) -> Seq<T> {
        match self.feeder {
            Some(f) => f.loaded(),
            None => Seq::empty(),
        }
    }

    /// Every sample the current ring has accepted, in order.
    pub closed spec fn submitted(&self) -> Seq<T> {
        match self.feeder {
            Some(f) => f.submitted(),
            None => Seq::empty(),
        }
    }

    /// The frame loaded last, interleaved.
    pub closed spec fn batch(&self) -> Seq<T> {
        match self.feeder {
            Some(f) => f.batch(),
            None => Seq::empty(),
        }
    }

    /// The capacity of the current ring (0 before there is one).
    pub closed spec fn capacity(&self) -> nat {
        match self.feeder {
            Some(f) => f.capacity(),
            None => 0,
        }
    }

    /// There is a ring once a format is set, and its feeder is well formed.
    pub closed spec fn wf(&self) -> bool {
        &&& self.supervisor.descriptor is Some ==> self.feeder is Some
        &&& self.feeder matches Some(f) ==> f.wf()
    }

    /// The loaded frame has been handed over whole.
    pub closed spec fn is_idle(&self) -> bool {
        self.feeder matches Some(f) ==> f.is_idle()
    }

    /// An idle pipeline whose rings will hold `latency_ms` of audio.
    pub fn new(latency_ms: u32) -> (r: Self)
        ensures
            r.wf(),
            r.is_idle(),
            r.state() == (Supervisor { phase: Phase::Idle, track: 0, descriptor: None, latency_ms }),
            r.loaded() == Seq::<T>::empty(),
    {
        Pipeline { supervisor: Supervisor::new(latency_ms), feeder: None }
    }

    pub fn supervisor(&self) -> (r: Supervisor)
        ensures
            r == self.state(),
    {
        self.supervisor
    }

    /// Takes event `e`, with the decoded frame's planes where `e` carries
    /// one, and returns the action; a fresh ring's read end comes with
    /// `Configure`, for the sink.
    /// - The state moves as the supervisor's `next` says, and the action is
    ///   its action, but where the ring it asks for cannot be made: then the
    ///   stream fails with `CapacityOverflow`.
    /// - `Write` loads the frame, interleaved, after what was loaded before.
    /// - `Configure` loads it as the first batch of a fresh, empty ring of the
    ///   capacity asked for.
    /// - Any other action loads nothing and leaves the ring as it was.
    pub fn handle(&mut self, e: Event, planes: &Vec<Vec<T>>) -> (r: (Action, Option<RingReader<T>>))
        requires
            old(self).wf(),
            old(self).is_idle(),
            planes_cover(planes@, frames_of(e)),
            frames_of(e) * planes@.len() <= usize::MAX,
        ensures
            final(self).wf(),
            !ring_refused::<T>(next(old(self).state(), e).1) ==> {
                &&& final(self).state() == next(old(self).state(), e).0
                &&& r.0 == next(old(self).state(), e).1
            },
            ring_refused::<T>(next(old(self).state(), e).1) ==> {
                &&& final(self).state() == (Supervisor { phase: Phase::Fatal, ..old(self).state() })
                &&& final(self).loaded() == old(self).loaded()
                &&& final(self).submitted() == old(self).submitted()
                &&& r.0 == Action::Fail(FatalError::CapacityOverflow)
            },
            r.1.is_some() == (r.0 is Configure),
            final(self).state().latency_ms == old(self).state().latency_ms,
            r.0 == Action::Write ==> {
                &&& is_interleaving(final(self).batch(), planes@, frames_of(e))
                &&& final(self).loaded() == old(self).loaded() + final(self).batch()
                &&& final(self).submitted() == old(self).submitted()
                &&& final(self).capacity() == old(self).capacity()
            },
            r.0 matches Action::Configure { capacity } ==> {
                &&& is_interleaving(final(self).batch(), planes@, frames_of(e))
                &&& final(self).loaded() == final(self).batch()
                &&& final(self).submitted() == Seq::<T>::empty()
                &&& final(self).capacity() == capacity
                &&& r.1 matches Some(rd) && rd.capacity() == capacity && rd.taken() == 0
            },
            !(r.0 is Write) && !(r.0 is Configure) ==> {
                &&& final(self).loaded() == old(self).loaded()
                &&& final(self).submitted() == old(self).submitted()
                &&& final(self).batch() == old(self).batch()
                &&& final(self).capacity() == old(self).capacity()
                &&& final(self).is_idle()
            },
    {
        let frames: usize = match e {
            Event::Decoded { frames, .. } => frames,
            _ => 0,
        };
        let prior = self.supervisor.descriptor;
        let a = self.supervisor.step(e);
        match a {
            Action::Configure { capacity } => {
                match ring::<T>(capacity) {
                    Some((writer, reader)) => {
                        let mut f = Feeder::new(writer);
                        f.load(planes, frames);
                        self.feeder = Some(f);
                        (a, Some(reader))
                    },
                    None => {
                        self.supervisor.phase = Phase::Fatal;
                        self.supervisor.descriptor = prior;
                        (Action::Fail(FatalError::CapacityOverflow), None)
                    },
                }
            },
            Action::Write => {
                if let Some(f) = &mut self.feeder {
                    f.load(planes, frames);
                }
                (a, None)
            },
            _ => (a, None),
        }
    }

    /// Hands more of the loaded frame to the ring, waiting while it is full;
    /// returns whether the frame is done. See `Feeder::submit`.
    pub fn submit(&mut self) -> (done: bool)
        requires
            old(self).wf(),
        ensures
            final(self).wf(),
            final(self).state() == old(self).state(),
            final(self).loaded() == old(self).loaded(),
            final(self).capacity() == old(self).capacity(),
            old(self).submitted() == final(self).submitted().subrange(
                0,
                old(self).submitted().len() as int,
            ),
            final(self).submitted() == final(self).loaded().subrange(
                0,
                final(self).submitted().len() as int,
            ),
            done == final(self).is_idle(),
            done ==> final(self).submitted() == final(self).loaded(),
    {
        if let Some(f) = &mut self.feeder {
            let done = f.submit();
            proof {
                f.lemma_submitted_prefix();
            }
            done
        } else {
            true
        }
    }
}

} // verus!

//! The streaming feeder: interleaves each decoded frame into a reusable
//! scratch buffer and submits it to the ring's write end under backpressure.
//!
//! A batch is loaded with `load` and then handed over by repeated calls of
//! `submit`, each of which may wait for the consumer; the caller repeats until
//! `submit` reports the batch done.

use crate::interleave::{interleave, is_interleaving, planes_cover};
use crate::ring::RingWriter;
use vstd::prelude::*;

verus! {

#[verifier::reject_recursive_types(T)]
pub struct Feeder<T> {
    writer: RingWriter<T>,
    scratch: Vec<T>,
    sent: usize,
    loaded: Ghost<Seq<T>>,
}

impl<T: Copy> Feeder<T> {
    /// Every sample loaded so far, in loading order.
    pub closed spec fn loaded(&self) -> Seq<T> {
        self.loaded@
    }

    /// Every sample the ring has accepted through this feeder's write end,
    /// in order.
    pub closed spec fn submitted(&self) -> Seq<T> {
        self.writer.accepted()
    }

    /// The capacity of the ring this feeder writes to.
    pub closed spec fn capacity(&self) -> nat {
        self.writer.capacity()
    }

    /// The batch now loaded, interleaved.
    pub closed spec fn batch(&self) -> Seq<T> {
        self.scratch@
    }

    /// How much of the loaded batch the ring has accepted.
    pub closed spec fn sent(&self) -> nat {
        self.sent as nat
    }

    /// What was loaded is what was submitted followed by what is still due.
    pub closed spec fn wf(&self) -> bool {
        &&& self.sent <= self.scratch@.len()
        &&& self.writer.accepted() + self.scratch@.subrange(self.sent as int, self.scratch@.len() as int)
            == self.loaded@
    }

    /// The loaded batch has been handed over whole.
    pub open spec fn is_idle(&self) -> bool {
        self.sent() == self.batch().len()
    }

    pub fn new(writer: RingWriter<T>) -> (r: Self)
        ensures
            r.wf(),
            r.is_idle(),
            r.submitted() == writer.accepted(),
            r.loaded() == writer.accepted(),
            r.capacity() == writer.capacity(),
    {
        let ghost before = writer.accepted();
        let r = Feeder { writer, scratch: Vec::new(), sent: 0, loaded: Ghost(before) };
        assert(r.writer.accepted() + r.scratch@.subrange(0, 0) =~= r.loaded@);
        r
    }

    /// What the ring accepted is a prefix of what was loaded, short of it
    /// by what is still due.
    pub proof fn lemma_submitted_prefix(&self)
        requires
            self.wf(),
        ensures
            self.submitted() == self.loaded().subrange(0, self.submitted().len() as int),
            self.submitted().len() + self.batch().len() - self.sent() == self.loaded().len(),
            self.is_idle() ==> self.submitted() == self.loaded(),
    {
        let rest = self.scratch@.subrange(self.sent as int, self.scratch@.len() as int);
        assert((self.writer.accepted() + rest).subrange(0, self.writer.accepted().len() as int)
            =~= self.writer.accepted());
        if self.is_idle() {
            assert(rest =~= Seq::<T>::empty());
            assert(self.writer.accepted() + rest =~= self.writer.accepted());
        }
    }

    /// Samples of the loaded batch that the ring has not yet accepted.
    pub fn pending(&self) -> (r: usize)
        requires
            self.wf(),
        ensures
            r == self.batch().len() - self.sent(),
    {
        self.scratch.len() - self.sent
    }

    /// Loads one decoded frame (`frames` samples in each of the planes) as the
    /// next batch, interleaved. A frame of zero samples leaves nothing due.
    pub fn load(&mut self, planes: &Vec<Vec<T>>, frames: usize)
        requires
            old(self).wf(),
            old(self).is_idle(),
            planes_cover(planes@, frames as nat),
            frames * planes@.len() <= usize::MAX,
        ensures
            final(self).wf(),
            is_interleaving(final(self).batch(), planes@, frames as nat),
            final(self).sent() == 0,
            final(self).loaded() == old(self).loaded() + final(self).batch(),
            final(self).submitted() == old(self).submitted(),
            final(self).capacity() == old(self).capacity(),
            frames == 0 ==> final(self).is_idle() && final(self).loaded() == old(self).loaded(),
    {
        interleave(planes, frames, &mut self.scratch);
        self.sent = 0;
        proof {
            let old_rest = old(self).scratch@.subrange(
                old(self).sent as int,
                old(self).scratch@.len() as int,
            );
            assert(old_rest =~= Seq::<T>::empty());
            assert(self.writer.accepted() =~= old(self).loaded@);
            self.loaded = Ghost(self.loaded@ + self.scratch@);
            assert(self.scratch@.subrange(0, self.scratch@.len() as int) =~= self.scratch@);
            if frames == 0 {
                assert(self.scratch@.len() == 0) by (nonlinear_arith)
                    requires
                        self.scratch@.len() == frames * planes@.len(),
                        frames == 0,
                ;
                assert(self.loaded@ =~= old(self).loaded@);
            }
        }
    }

    /// Hands the rest of the batch to the ring, waiting while it is full, and
    /// records the prefix it accepted. Returns whether the batch is now done.
    /// With nothing due it returns `true` at once and changes nothing.
    pub fn submit(&mut self) -> (done: bool)
        requires
            old(self).wf(),
        ensures
            final(self).wf(),
            final(self).batch() == old(self).batch(),
            final(self).loaded() == old(self).loaded(),
            old(self).sent() <= final(self).sent(),
            final(self).submitted() == old(self).submitted() + old(self).batch().subrange(
                old(self).sent() as int,
                final(self).sent() as int,
            ),
            final(self).capacity() == old(self).capacity(),
            done == final(self).is_idle(),
            old(self).is_idle() ==> done && *final(self) == *old(self),
    {
        let len = self.scratch.len();
        if self.sent == len {
            return true;
        }
        let rest = vstd::slice::slice_subrange(self.scratch.as_slice(), self.sent, len);
        let written = self.writer.write_blocking(rest);
        let n: usize = match written {
            Some(n) => n,
            None => 0,
        };
        let ghost s = self.scratch@;
        let ghost from = self.sent as int;
        proof {
            assert(rest@ == s.subrange(from, s.len() as int));
            assert(s.subrange(from, s.len() as int).subrange(0, n as int) =~= s.subrange(
                from,
                from + n,
            ));
            assert(s.subrange(from, from + n) + s.subrange(from + n, s.len() as int)
                =~= s.subrange(from, s.len() as int));
            assert(self.writer.accepted() + s.subrange(from + n, s.len() as int)
                =~= old(self).writer.accepted() + s.subrange(from, s.len() as int));
        }
        self.sent = self.sent + n;
        self.sent == len
    }
}

/// Over any run of loads and submits, once the feeder is idle the ring has
/// accepted exactly the loaded batches, concatenated in loading order, each
/// sample once.
pub proof fn lemma_submitted_in_order<T: Copy>(f: &Feeder<T>)
    requires
        f.wf(),
        f.is_idle(),
    ensures
        f.submitted() == f.loaded(),
{
    assert(f.scratch@.subrange(f.sent as int, f.scratch@.len() as int) =~= Seq::<T>::empty());
    assert(f.writer.accepted() + Seq::<T>::empty() =~= f.writer.accepted());
}

} // verus!

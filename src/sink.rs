//! The real-time output sink: fills each device buffer from the ring, and
//! with silence where the ring runs short.

use crate::ring::RingReader;
use vstd::prelude::*;

verus! {

/// `out` keeps `old`'s first `from` samples and is `silence` from there on.
pub open spec fn silence_filled<T>(out: Seq<T>, old: Seq<T>, from: int, silence: T) -> bool {
    &&& out.len() == old.len()
    &&& forall|i: int| 0 <= i < from ==> #[trigger] out[i] == old[i]
    &&& forall|i: int| from <= i < out.len() ==> #[trigger] out[i] == silence
}

/// Sets `dest[from..]` to `silence` and keeps `dest[..from]`.
pub fn fill_silence<T: Copy>(dest: &mut [T], from: usize, silence: T)
    requires
        from <= old(dest)@.len(),
    ensures
        silence_filled(final(dest)@, old(dest)@, from as int, silence),
{
    let n = dest.len();
    let mut i: usize = from;
    while i < n
        invariant
            from <= i <= n,
            n == dest@.len(),
            n == old(dest)@.len(),
            forall|j: int| 0 <= j < from ==> #[trigger] dest@[j] == old(dest)@[j],
            forall|j: int| from <= j < i ==> #[trigger] dest@[j] == silence,
        decreases n - i,
    {
        dest[i] = silence;
        i = i + 1;
    }
}

/// The device callback: reads what the ring holds into the front of `dest`,
/// without waiting, then fills the rest with `silence`. Returns how many
/// samples came from the ring; an under-run is no error.
pub fn render<T: Copy>(reader: &mut RingReader<T>, dest: &mut [T], silence: T) -> (n: usize)
    ensures
        final(reader).capacity() == old(reader).capacity(),
        final(reader).taken() == old(reader).taken() + n,
        n <= old(dest)@.len(),
        final(dest)@.len() == old(dest)@.len(),
        forall|i: int| n <= i < old(dest)@.len() ==> #[trigger] final(dest)@[i] == silence,
{
    let n = reader.read_nonblocking(dest);
    fill_silence(dest, n, silence);
    n
}

} // verus!

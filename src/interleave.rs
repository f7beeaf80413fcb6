//! The interleaving adapter: planar per-channel samples to one flat,
//! channel-minor sequence.

use vstd::prelude::*;

verus! {

/// Every plane holds at least `frames` samples.
pub open spec fn planes_cover<T>(planes: Seq<Vec<T>>, frames: nat) -> bool {
    forall|c: int| 0 <= c < planes.len() ==> #[trigger] planes[c]@.len() >= frames
}

/// Sample `c` of frame `f` stands at `f * channels + c`.
pub open spec fn is_interleaving<T>(out: Seq<T>, planes: Seq<Vec<T>>, frames: nat) -> bool {
    &&& out.len() == frames * planes.len()
    &&& forall|f: int, c: int|
        0 <= f < frames && 0 <= c < planes.len() ==> #[trigger] out[f * planes.len() + c]
            == planes[c]@[f]
}

/// Whether `interleave` accepts `frames` samples from `planes`: every plane
/// holds that many and the interleaved length fits in memory.
pub fn fits<T>(planes: &Vec<Vec<T>>, frames: usize) -> (r: bool)
    ensures
        r == (planes_cover(planes@, frames as nat) && frames * planes@.len() <= usize::MAX),
{
    let n = planes.len();
    let mut c: usize = 0;
    while c < n
        invariant
            c <= n,
            n == planes@.len(),
            forall|k: int| 0 <= k < c ==> #[trigger] planes@[k]@.len() >= frames,
        decreases n - c,
    {
        if planes[c].len() < frames {
            return false;
        }
        c = c + 1;
    }
    frames.checked_mul(n).is_some()
}

proof fn lemma_slot_below(f: int, c: int, n: int, g: int)
    requires
        0 <= f < g,
        0 <= c < n,
    ensures
        0 <= f * n + c < g * n,
{
    assert(0 <= f * n + c < g * n) by (nonlinear_arith)
        requires
            0 <= f < g,
            0 <= c < n,
    ;
}

/// Writes the first `frames` samples of each plane into `out`, interleaved.
/// `out` is a scratch buffer: its old contents are dropped, its allocation
/// is kept.
pub fn interleave<T: Copy>(planes: &Vec<Vec<T>>, frames: usize, out: &mut Vec<T>)
    requires
        planes_cover(planes@, frames as nat),
        frames * planes@.len() <= usize::MAX,
    ensures
        is_interleaving(final(out)@, planes@, frames as nat),
{
    out.clear();
    let n = planes.len();
    let mut f: usize = 0;
    while f < frames
        invariant
            f <= frames,
            n == planes@.len(),
            planes_cover(planes@, frames as nat),
            frames * n <= usize::MAX,
            out@.len() == f * n,
            forall|g: int, c: int|
                0 <= g < f && 0 <= c < n ==> #[trigger] out@[g * n + c] == planes@[c]@[g],
        decreases frames - f,
    {
        let ghost before = out@;
        let mut c: usize = 0;
        while c < n
            invariant
                f < frames,
                c <= n,
                n == planes@.len(),
                planes_cover(planes@, frames as nat),
                frames * n <= usize::MAX,
                before.len() == f * n,
                out@.len() == f * n + c,
                out@.subrange(0, before.len() as int) == before,
                forall|g: int, c2: int|
                    0 <= g < f && 0 <= c2 < n ==> #[trigger] before[g * n + c2] == planes@[c2]@[g],
                forall|c2: int| 0 <= c2 < c ==> #[trigger] out@[f * n + c2] == planes@[c2]@[f as int],
            decreases n - c,
        {
            assert(planes@[c as int]@.len() >= frames);
            proof {
                lemma_slot_below(f as int, c as int, n as int, frames as int);
            }
            out.push(planes[c][f]);
            c = c + 1;
        }
        assert forall|g: int, c2: int| 0 <= g < f + 1 && 0 <= c2 < n implies #[trigger] out@[g
            * n + c2] == planes@[c2]@[g] by {
            if g < f {
                lemma_slot_below(g, c2, n as int, f as int);
                assert(out@[g * n + c2] == out@.subrange(0, before.len() as int)[g * n + c2]);
            }
        }
        assert((f + 1) * n == f * n + n) by (nonlinear_arith);
        f = f + 1;
    }
}

} // verus!

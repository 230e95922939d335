//! Byte-frequency counts, the integer part of Shannon entropy, and the
//! fixed-point scale in which entropy values are carried.
use vstd::prelude::*;

verus! {

/// Entropy values are carried in millionths of a bit per byte: 8 bits is
/// `8 * ENTROPY_SCALE`.
pub const ENTROPY_SCALE: u64 = 1000000;

/// A section whose entropy is strictly above this (7.0 bits) is reported.
pub const HIGH_ENTROPY_THRESHOLD: u64 = 7000000;

/// Two sections whose entropies differ by strictly more than this (0.1 bits)
/// are reported as an entropy shift.
pub const ENTROPY_SHIFT_THRESHOLD: u64 = 100000;

/// How many bytes of `d` equal `b`.
pub open spec fn occurrences(d: Seq<u8>, b: u8) -> nat
    decreases d.len(),
{
    if d.len() == 0 {
        0
    } else {
        occurrences(d.drop_last(), b) + if d.last() == b {
            1nat
        } else {
            0nat
        }
    }
}

proof fn lemma_occurrences_bounded(d: Seq<u8>, b: u8)
    ensures
        occurrences(d, b) <= d.len(),
    decreases d.len(),
{
    if d.len() > 0 {
        lemma_occurrences_bounded(d.drop_last(), b);
    }
}

/// The frequency of each of the 256 byte values in `d`, indexed by value.
pub fn byte_histogram(d: &[u8]) -> (r: Vec<usize>)
    ensures
        r@.len() == 256,
        forall|v: int| 0 <= v < 256 ==> #[trigger] r@[v] == occurrences(d@, v as u8),
{
    let mut r: Vec<usize> = Vec::new();
    let mut v: usize = 0;
    while v < 256
        invariant
            v <= 256,
            r@.len() == v,
            forall|k: int| 0 <= k < v ==> #[trigger] r@[k] == 0,
        decreases 256 - v,
    {
        r.push(0);
        v = v + 1;
    }
    let mut i: usize = 0;
    while i < d.len()
        invariant
            i <= d@.len(),
            r@.len() == 256,
            forall|k: int| 0 <= k < 256 ==> #[trigger] r@[k] == occurrences(d@.take(i as int), k as u8),
        decreases d.len() - i,
    {
        let b = d[i];
        proof {
            assert(d@.take(i + 1).drop_last() =~= d@.take(i as int));
            lemma_occurrences_bounded(d@.take(i as int), b);
        }
        let c = r[b as usize];
        r.set(b as usize, c + 1);
        i = i + 1;
    }
    assert(d@.take(d@.len() as int) =~= d@);
    r
}

} // verus!

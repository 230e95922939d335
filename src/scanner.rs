//! Linear scan of a whole-file buffer for runs of one repeated byte value
//! (NOP sleds).
use crate::text::{decimal_of, push_decimal};
use vstd::prelude::*;

verus! {

/// The single-byte x86 no-operation opcode.
pub const NOP: u8 = 0x90;

/// The shortest run of `NOP` bytes that is reported.
pub const MIN_NOP_RUN: usize = 20;

/// `(start, len)` is a maximal run of `b` in `d`: every byte of
/// `d[start..start + len]` is `b`, and neither neighbour is.
pub open spec fn is_run(d: Seq<u8>, b: u8, start: int, len: int) -> bool {
    &&& 0 <= start
    &&& 1 <= len
    &&& start + len <= d.len()
    &&& forall|k: int| start <= k < start + len ==> d[k] == b
    &&& start == 0 || d[start - 1] != b
    &&& start + len == d.len() || d[start + len] != b
}

/// `r` lists exactly the maximal runs of `b` in `d` whose length is at least
/// `min_len`, by ascending start.
pub open spec fn lists_runs(d: Seq<u8>, b: u8, min_len: int, r: Seq<(usize, usize)>) -> bool {
    &&& forall|k: int|
        0 <= k < r.len() ==> is_run(d, b, (#[trigger] r[k]).0 as int, r[k].1 as int) && r[k].1
            >= min_len
    &&& forall|k: int| 0 <= k < r.len() - 1 ==> #[trigger] r[k].0 < r[k + 1].0
    &&& forall|s: int, l: int|
        is_run(d, b, s, l) && l >= min_len ==> exists|k: int|
            0 <= k < r.len() && #[trigger] r[k] == (s as usize, l as usize)
}

/// The listing of runs is unique: `lists_runs` pins down one sequence.
pub proof fn lemma_runs_listing_unique(
    d: Seq<u8>,
    b: u8,
    min_len: int,
    r1: Seq<(usize, usize)>,
    r2: Seq<(usize, usize)>,
)
    requires
        lists_runs(d, b, min_len, r1),
        lists_runs(d, b, min_len, r2),
    ensures
        r1 == r2,
{
    lemma_increasing(r1);
    lemma_increasing(r2);
    assert forall|i: int| 0 <= i < r1.len() implies r2.contains(#[trigger] r1[i]) by {
        assert(is_run(d, b, r1[i].0 as int, r1[i].1 as int) && r1[i].1 >= min_len);
        assert(r1[i] == (r1[i].0 as int as usize, r1[i].1 as int as usize));
    }
    assert forall|i: int| 0 <= i < r2.len() implies r1.contains(#[trigger] r2[i]) by {
        assert(is_run(d, b, r2[i].0 as int, r2[i].1 as int) && r2[i].1 >= min_len);
        assert(r2[i] == (r2[i].0 as int as usize, r2[i].1 as int as usize));
    }
    lemma_same_increasing(r1, r2, 0);
}

/// Starts increase strictly along the whole of `r`, not only between
/// neighbours.
proof fn lemma_increasing(r: Seq<(usize, usize)>)
    requires
        forall|k: int| 0 <= k < r.len() - 1 ==> #[trigger] r[k].0 < r[k + 1].0,
    ensures
        forall|i: int, j: int| 0 <= i < j < r.len() ==> r[i].0 < r[j].0,
{
    assert forall|i: int, j: int| 0 <= i < j < r.len() implies r[i].0 < r[j].0 by {
        lemma_increasing_from(r, i, j);
    }
}

proof fn lemma_increasing_from(r: Seq<(usize, usize)>, i: int, j: int)
    requires
        forall|k: int| 0 <= k < r.len() - 1 ==> #[trigger] r[k].0 < r[k + 1].0,
        0 <= i < j < r.len(),
    ensures
        r[i].0 < r[j].0,
    decreases j - i,
{
    if j > i + 1 {
        lemma_increasing_from(r, i, j - 1);
        assert(r[j - 1].0 < r[j].0);
    }
}

/// Two strictly increasing sequences that hold each other's elements agree
/// from index `n` on, given that they agree below it.
proof fn lemma_same_increasing(r1: Seq<(usize, usize)>, r2: Seq<(usize, usize)>, n: int)
    requires
        0 <= n,
        n <= r1.len(),
        n <= r2.len(),
        forall|i: int| 0 <= i < n ==> r1[i] == r2[i],
        forall|i: int, j: int| 0 <= i < j < r1.len() ==> r1[i].0 < r1[j].0,
        forall|i: int, j: int| 0 <= i < j < r2.len() ==> r2[i].0 < r2[j].0,
        forall|i: int| 0 <= i < r1.len() ==> r2.contains(#[trigger] r1[i]),
        forall|i: int| 0 <= i < r2.len() ==> r1.contains(#[trigger] r2[i]),
    ensures
        r1 == r2,
    decreases r1.len() + r2.len() - 2 * n,
{
    if n < r1.len() {
        let k = choose|k: int| 0 <= k < r2.len() && #[trigger] r2[k] == r1[n];
        if k < n {
            assert(r1[k] == r1[n]);
            assert(r1[k].0 < r1[n].0);
        }
        if k > n {
            let k2 = choose|k2: int| 0 <= k2 < r1.len() && #[trigger] r1[k2] == r2[n];
            assert(r2[n].0 < r2[k].0);
            if k2 >= n {
                if k2 > n {
                    assert(r1[n].0 < r1[k2].0);
                }
            } else {
                assert(r2[k2] == r1[k2]);
                assert(r2[k2].0 < r2[n].0);
            }
        }
        assert(r1[n] == r2[n]);
        lemma_same_increasing(r1, r2, n + 1);
    } else if n < r2.len() {
        let k = choose|k: int| 0 <= k < r1.len() && #[trigger] r1[k] == r2[n];
        assert(r2[k] == r1[k]);
        assert(r2[k].0 < r2[n].0);
    } else {
        assert(r1 =~= r2);
    }
}

/// Two maximal runs of one byte value that end at the same place are the same run.
proof fn lemma_run_end_unique(d: Seq<u8>, b: u8, s1: int, l1: int, s2: int, l2: int)
    requires
        is_run(d, b, s1, l1),
        is_run(d, b, s2, l2),
        s1 + l1 == s2 + l2,
    ensures
        s1 == s2,
        l1 == l2,
{
    if s1 < s2 {
        assert(d[s2 - 1] == b);
    } else if s2 < s1 {
        assert(d[s1 - 1] == b);
    }
}

/// Every maximal run of `b` in `d` at least `min_len` long, as `(start, len)`
/// in order of start. A run still open at the end of `d` is reported too.
pub fn find_byte_runs(d: &[u8], b: u8, min_len: usize) -> (r: Vec<(usize, usize)>)
    requires
        min_len >= 1,
    ensures
        lists_runs(d@, b, min_len as int, r@),
{
    let mut r: Vec<(usize, usize)> = Vec::new();
    let mut count: usize = 0;
    let mut start: usize = 0;
    let mut i: usize = 0;
    while i < d.len()
        invariant
            min_len >= 1,
            i <= d@.len(),
            count <= i,
            start == i - count,
            forall|k: int| i - count <= k < i ==> d@[k] == b,
            count > 0 ==> (start == 0 || d@[start - 1] != b),
            count == 0 ==> (i == 0 || d@[i - 1] != b),
            forall|k: int|
                0 <= k < r@.len() ==> is_run(d@, b, #[trigger] r@[k].0 as int, r@[k].1 as int)
                    && r@[k].1 >= min_len && r@[k].0 + r@[k].1 < start,
            forall|k: int| 0 <= k < r@.len() - 1 ==> #[trigger] r@[k].0 < r@[k + 1].0,
            forall|s: int, l: int|
                is_run(d@, b, s, l) && l >= min_len && s + l < i ==> exists|k: int|
                    0 <= k < r@.len() && #[trigger] r@[k] == (s as usize, l as usize),
        decreases d.len() - i,
    {
        if d[i] == b {
            if count == 0 {
                start = i;
            }
            count = count + 1;
            assert forall|k: int| 0 <= k < r@.len() implies is_run(d@, b, #[trigger] r@[k].0 as int, r@[k].1 as int)
                && r@[k].1 >= min_len && r@[k].0 + r@[k].1 < start by {
                assert(is_run(d@, b, r@[k].0 as int, r@[k].1 as int));
                assert(r@[k].0 + r@[k].1 < start);
            }
        } else {
            let ghost old_r = r@;
            if count >= min_len {
                assert(is_run(d@, b, start as int, count as int));
                r.push((start, count));
                assert(r@[r@.len() - 1] == (start, count));
            }
            assert forall|s: int, l: int|
                is_run(d@, b, s, l) && l >= min_len && s + l < i + 1 implies exists|k: int|
                    0 <= k < r@.len() && #[trigger] r@[k] == (s as usize, l as usize) by {
                if s + l < i {
                    let k = choose|k: int|
                        0 <= k < old_r.len() && #[trigger] old_r[k] == (s as usize, l as usize);
                    assert(r@[k] == old_r[k]);
                } else {
                    if count == 0 {
                        assert(d@[s + l - 1] == b);
                    } else {
                        assert(is_run(d@, b, start as int, count as int));
                        lemma_run_end_unique(d@, b, s, l, start as int, count as int);
                        assert(r@[r@.len() - 1] == (s as usize, l as usize));
                    }
                }
            }
            assert forall|k: int| 0 <= k < r@.len() implies is_run(d@, b, #[trigger] r@[k].0 as int, r@[k].1 as int)
                && r@[k].1 >= min_len && r@[k].0 + r@[k].1 < i + 1 by {
                if k < old_r.len() {
                    assert(r@[k] == old_r[k]);
                    assert(is_run(d@, b, old_r[k].0 as int, old_r[k].1 as int));
                    assert(old_r[k].0 + old_r[k].1 < start);
                } else {
                    assert(r@[k] == (start, count));
                }
            }
            count = 0;
            start = i + 1;
        }
        i = i + 1;
    }
    if count >= min_len {
        let ghost old_r = r@;
        assert(is_run(d@, b, start as int, count as int));
        r.push((start, count));
        assert(r@[r@.len() - 1] == (start, count));
        assert forall|k: int| 0 <= k < r@.len() - 1 implies #[trigger] r@[k].0 < r@[k + 1].0 by {
            if k + 1 < old_r.len() {
                assert(r@[k] == old_r[k] && r@[k + 1] == old_r[k + 1]);
            } else {
                assert(r@[k] == old_r[k]);
            }
        }
        assert forall|s: int, l: int| is_run(d@, b, s, l) && l >= min_len implies exists|k: int|
            0 <= k < r@.len() && #[trigger] r@[k] == (s as usize, l as usize) by {
            if s + l < i {
                let k = choose|k: int|
                    0 <= k < old_r.len() && #[trigger] old_r[k] == (s as usize, l as usize);
                assert(r@[k] == old_r[k]);
            } else {
                lemma_run_end_unique(d@, b, s, l, start as int, count as int);
                assert(r@[r@.len() - 1] == (s as usize, l as usize));
            }
        }
    } else {
        assert forall|s: int, l: int| is_run(d@, b, s, l) && l >= min_len implies s + l < i by {
            if s + l == i && count > 0 {
                assert(is_run(d@, b, start as int, count as int));
                lemma_run_end_unique(d@, b, s, l, start as int, count as int);
            } else if s + l == i {
                assert(d@[s + l - 1] == b);
            }
        }
    }
    r
}

/// The description of a NOP sled of `len` bytes.
pub open spec fn sled_message(len: nat) -> Seq<char> {
    "NOP sled detected (length: "@ + decimal_of(len) + ")"@
}

/// The NOP sleds of `d`: its maximal runs of at least `MIN_NOP_RUN` `NOP`
/// bytes, as `(start, len)` by ascending start (the one sequence that
/// `lists_runs` admits, see `lemma_runs_listing_unique`).
pub open spec fn nop_sleds(d: Seq<u8>) -> Seq<(usize, usize)> {
    choose|r: Seq<(usize, usize)>| lists_runs(d, NOP, MIN_NOP_RUN as int, r)
}

/// The NOP sleds of `d`, in order: each with its start offset and a
/// description naming its length. A run that reaches the end of `d` counts.
pub fn detect_suspicious_sequences(d: &[u8]) -> (r: Vec<(usize, String)>)
    ensures
        lists_runs(d@, NOP, MIN_NOP_RUN as int, nop_sleds(d@)),
        r@.len() == nop_sleds(d@).len(),
        forall|k: int|
            0 <= k < r@.len() ==> (#[trigger] r@[k]).0 == nop_sleds(d@)[k].0 && r@[k].1@
                == sled_message(nop_sleds(d@)[k].1 as nat),
{
    let runs = find_byte_runs(d, NOP, MIN_NOP_RUN);
    let mut r: Vec<(usize, String)> = Vec::new();
    let mut k: usize = 0;
    while k < runs.len()
        invariant
            k <= runs@.len(),
            r@.len() == k,
            forall|j: int|
                0 <= j < k ==> (#[trigger] r@[j]).0 == runs@[j].0 && r@[j].1@ == sled_message(
                    runs@[j].1 as nat,
                ),
        decreases runs.len() - k,
    {
        let (start, len) = runs[k];
        let mut msg = String::from_str("NOP sled detected (length: ");
        push_decimal(&mut msg, len as u64);
        msg.append(")");
        r.push((start, msg));
        k = k + 1;
    }
    proof {
        assert(lists_runs(d@, NOP, MIN_NOP_RUN as int, runs@));
        lemma_runs_listing_unique(d@, NOP, MIN_NOP_RUN as int, runs@, nop_sleds(d@));
    }
    r
}

} // verus!

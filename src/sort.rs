//! Stable ordering of records by address.
use vstd::prelude::*;

verus! {

broadcast use vstd::seq_lib::group_seq_properties;

/// A record placed at an address of the binary's image.
pub trait Addressed {
    spec fn addr_of(&self) -> u64;

    fn address_key(&self) -> (r: u64)
        ensures
            r == self.addr_of(),
    ;
}

/// Addresses never decrease along `s`.
pub open spec fn addr_sorted<T: Addressed>(s: Seq<T>) -> bool {
    forall|i: int, j: int| 0 <= i < j < s.len() ==> s[i].addr_of() <= s[j].addr_of()
}

/// Whether a record lies at address `a`.
pub open spec fn lies_at<T: Addressed>(a: u64) -> spec_fn(T) -> bool {
    |x: T| x.addr_of() == a
}

/// The records of `s` at address `a`, in their order in `s`.
pub open spec fn at_address<T: Addressed>(s: Seq<T>, a: u64) -> Seq<T> {
    s.filter(lies_at(a))
}

/// How many records of `s` lie below address `k`.
pub open spec fn count_below<T: Addressed>(s: Seq<T>, k: u64) -> nat
    decreases s.len(),
{
    if s.len() == 0 {
        0
    } else {
        count_below(s.drop_last(), k) + if s.last().addr_of() < k {
            1nat
        } else {
            0nat
        }
    }
}

/// `x` put into the sorted `s` ahead of every record at or above its address.
pub open spec fn insert_front<T: Addressed>(s: Seq<T>, x: T) -> Seq<T> {
    let c = count_below(s, x.addr_of()) as int;
    s.take(c) + seq![x] + s.skip(c)
}

/// `s` sorted by address, records at one address kept in their order in `s`.
pub open spec fn stable_sorted<T: Addressed>(s: Seq<T>) -> Seq<T>
    decreases s.len(),
{
    if s.len() == 0 {
        s
    } else {
        insert_front(stable_sorted(s.drop_first()), s[0])
    }
}

/// In a sorted sequence the records below `k` form a prefix.
proof fn lemma_count_below_prefix<T: Addressed>(s: Seq<T>, k: u64)
    requires
        addr_sorted(s),
    ensures
        count_below(s, k) <= s.len(),
        forall|i: int| 0 <= i < count_below(s, k) ==> #[trigger] s[i].addr_of() < k,
        forall|i: int| count_below(s, k) <= i < s.len() ==> #[trigger] s[i].addr_of() >= k,
    decreases s.len(),
{
    if s.len() > 0 {
        let t = s.drop_last();
        assert(addr_sorted(t));
        lemma_count_below_prefix(t, k);
        let ct = count_below(t, k);
        assert forall|i: int| 0 <= i < t.len() implies #[trigger] s[i] == t[i] by {}
        if s.last().addr_of() < k {
            assert(count_below(s, k) == ct + 1);
            assert forall|i: int| 0 <= i < s.len() implies #[trigger] s[i].addr_of() < k by {
                if i < s.len() - 1 {
                    assert(s[i].addr_of() <= s.last().addr_of());
                }
            }
            if ct < t.len() {
                assert(t[ct as int].addr_of() >= k);
                assert(s[ct as int].addr_of() <= s.last().addr_of());
            }
        } else {
            assert(count_below(s, k) == ct);
            assert forall|i: int| 0 <= i < ct implies #[trigger] s[i].addr_of() < k by {
                assert(t[i].addr_of() < k);
            }
            assert forall|i: int| ct <= i < s.len() implies #[trigger] s[i].addr_of() >= k by {
                if i < s.len() - 1 {
                    assert(t[i].addr_of() >= k);
                }
            }
        }
    }
}

/// Sorting by address yields a sorted sequence that holds, at each address,
/// exactly the records of the input at that address, in their input order.
pub proof fn lemma_stable_sorted<T: Addressed>(s: Seq<T>)
    ensures
        addr_sorted(stable_sorted(s)),
        forall|a: u64| #[trigger] at_address(stable_sorted(s), a) == at_address(s, a),
    decreases s.len(),
{
    if s.len() > 0 {
        let rest = s.drop_first();
        let x = s[0];
        let out = stable_sorted(rest);
        lemma_stable_sorted(rest);
        let k = x.addr_of();
        let c = count_below(out, k) as int;
        lemma_count_below_prefix(out, k);
        let res = stable_sorted(s);
        assert(res == out.take(c) + seq![x] + out.skip(c));
        assert forall|i: int, j: int| 0 <= i < j < res.len() implies res[i].addr_of()
            <= res[j].addr_of() by {
            if j < c {
                assert(res[i] == out[i] && res[j] == out[j]);
            } else if j == c {
                assert(res[i] == out[i]);
            } else if i < c {
                assert(res[i] == out[i] && res[j] == out[j - 1]);
            } else if i == c {
                assert(res[j] == out[j - 1]);
            } else {
                assert(res[i] == out[i - 1] && res[j] == out[j - 1]);
            }
        }
        assert forall|a: u64| #[trigger] at_address(res, a) == at_address(s, a) by {
            let p = lies_at::<T>(a);
            let lo = out.take(c);
            let hi = out.skip(c);
            assert(s =~= seq![x] + rest);
            rest.lemma_filter_prepend(x, p);
            assert(out =~= lo + hi);
            Seq::filter_distributes_over_add(lo, hi, p);
            Seq::filter_distributes_over_add(lo + seq![x], hi, p);
            Seq::filter_distributes_over_add(lo, seq![x], p);
            assert(at_address(out, a) == at_address(rest, a));
            assert(seq![x] =~= seq![x] + Seq::<T>::empty());
            Seq::<T>::empty().lemma_filter_prepend(x, p);
            assert(Seq::<T>::empty().filter(p) =~= Seq::<T>::empty());
            if a == k {
                assert forall|i: int| 0 <= i < lo.len() implies !p(#[trigger] lo[i]) by {
                    assert(out[i].addr_of() < k);
                }
                lo.lemma_all_neg_filter_empty(p);
                assert(lo.filter(p) =~= Seq::<T>::empty());
                assert(seq![x].filter(p) =~= seq![x]);
                assert(res.filter(p) =~= seq![x] + hi.filter(p));
                assert(out.filter(p) =~= hi.filter(p));
            } else {
                assert(seq![x].filter(p) =~= Seq::<T>::empty());
                assert(res.filter(p) =~= lo.filter(p) + hi.filter(p));
            }
        }
    }
}

/// The records of `v` sorted by address; records at one address keep their
/// order in `v`.
pub fn sort_by_address<T: Addressed>(v: Vec<T>) -> (r: Vec<T>)
    ensures
        r@ == stable_sorted(v@),
        addr_sorted(r@),
        forall|a: u64| #[trigger] at_address(r@, a) == at_address(v@, a),
{
    let ghost orig = v@;
    let mut v = v;
    let mut out: Vec<T> = Vec::new();
    assert(orig.skip(orig.len() as int) =~= Seq::<T>::empty());
    assert(orig.take(orig.len() as int) =~= orig);
    while v.len() > 0
        invariant
            v.len() <= orig.len(),
            v@ == orig.take(v.len() as int),
            out@ == stable_sorted(orig.skip(v.len() as int)),
        decreases v.len(),
    {
        let ghost n = v.len() as int;
        let x = v.pop().unwrap();
        assert(v@ =~= orig.take(n - 1));
        assert(x == orig[n - 1]);
        proof {
            lemma_stable_sorted(orig.skip(n));
            lemma_count_below_prefix(out@, x.addr_of());
            assert(orig.skip(n - 1).drop_first() =~= orig.skip(n));
            assert(orig.skip(n - 1)[0] == x);
        }
        let k = x.address_key();
        let mut j: usize = 0;
        while j < out.len() && out[j].address_key() < k
            invariant
                j <= out.len(),
                forall|i: int| 0 <= i < j ==> #[trigger] out@[i].addr_of() < k,
            decreases out.len() - j,
        {
            j = j + 1;
        }
        assert(j == count_below(out@, k)) by {
            let c = count_below(out@, k) as int;
            if j < c {
                assert(out@[j as int].addr_of() < k);
            } else if j > c {
                assert(out@[c].addr_of() < k);
            }
        }
        let ghost before = out@;
        out.insert(j, x);
        assert(out@ =~= insert_front(before, x));
    }
    assert(orig.skip(0) =~= orig);
    proof {
        lemma_stable_sorted(orig);
    }
    out
}

} // verus!

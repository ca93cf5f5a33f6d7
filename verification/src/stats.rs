//! Order statistics of a sequence of fixed-point numbers.

use crate::fixed::{lemma_mean_within, mean, quot, Fixed};
use vstd::prelude::*;
use vstd::relations::{sorted_by, total_ordering};
use vstd::seq_lib::lemma_sorted_unique;

verus! {

/// The order of the numbers.
pub open spec fn leq() -> spec_fn(Fixed, Fixed) -> bool {
    |a: Fixed, b: Fixed| a@ <= b@
}

/// The elements of `s` in ascending order.
pub open spec fn sorted(s: Seq<Fixed>) -> Seq<Fixed> {
    s.sort_by(leq())
}

/// The least element of `s`; zero when `s` is empty.
pub open spec fn minimum(s: Seq<Fixed>) -> int {
    if s.len() == 0 {
        0
    } else {
        sorted(s).first()@
    }
}

/// The greatest element of `s`; zero when `s` is empty.
pub open spec fn maximum(s: Seq<Fixed>) -> int {
    if s.len() == 0 {
        0
    } else {
        sorted(s).last()@
    }
}

/// The median of `s`: the middle element in ascending order, or, where the
/// length is even, the midpoint of the two middle elements, rounded toward
/// zero. Zero when `s` is empty.
pub open spec fn median(s: Seq<Fixed>) -> int {
    let t = sorted(s);
    let half: int = s.len() as int / 2;
    if s.len() == 0 {
        0
    } else if s.len() % 2 == 0 {
        quot(t[half - 1]@ + t[half]@, 2)
    } else {
        t[half]@
    }
}

/// The order of the numbers is total.
pub proof fn lemma_leq_total()
    ensures
        total_ordering(leq()),
{
    assert forall|a: Fixed, b: Fixed| #[trigger] leq()(a, b) && leq()(b, a) implies a == b by {
        assert(a.micros == b.micros);
    }
}

/// `sorted(s)` is a rearrangement of `s` in ascending order.
pub proof fn lemma_sorted_is_ascending_rearrangement(s: Seq<Fixed>)
    ensures
        sorted(s).to_multiset() == s.to_multiset(),
        sorted(s).len() == s.len(),
        forall|i: int, j: int| 0 <= i <= j < s.len() ==> #[trigger] sorted(s)[i]@ <= #[trigger] sorted(s)[j]@,
{
    broadcast use vstd::seq_lib::group_to_multiset_ensures;

    lemma_leq_total();
    s.lemma_sort_by_ensures(leq());
    let t = sorted(s);
    assert(t.to_multiset().len() == s.to_multiset().len());
    assert forall|i: int, j: int| 0 <= i <= j < s.len() implies #[trigger] t[i]@ <= #[trigger] t[j]@ by {
        if i < j {
            assert(leq()(t[i], t[j]));
        }
    }
}

/// The ascending rearrangement of a sequence is unique: a sequence in
/// ascending order with the elements of `s` is `sorted(s)`.
pub proof fn lemma_sorted_is_unique(s: Seq<Fixed>, t: Seq<Fixed>)
    requires
        t.to_multiset() == s.to_multiset(),
        forall|i: int, j: int| 0 <= i <= j < t.len() ==> #[trigger] t[i]@ <= #[trigger] t[j]@,
    ensures
        sorted(s) == t,
{
    lemma_leq_total();
    s.lemma_sort_by_ensures(leq());
    assert(sorted_by(t, leq())) by {
        assert forall|i: int, j: int| 0 <= i < j < t.len() implies #[trigger] leq()(t[i], t[j]) by {
            assert(t[i]@ <= t[j]@);
        }
    }
    lemma_sorted_unique(t, sorted(s), leq());
}

/// Every element of `s` occurs in `sorted(s)`, and every element of
/// `sorted(s)` in `s`.
pub proof fn lemma_sorted_same_elements(s: Seq<Fixed>)
    ensures
        forall|i: int| 0 <= i < s.len() ==> sorted(s).contains(#[trigger] s[i]),
        forall|j: int| 0 <= j < sorted(s).len() ==> s.contains(#[trigger] sorted(s)[j]),
{
    broadcast use vstd::seq_lib::group_to_multiset_ensures;

    lemma_sorted_is_ascending_rearrangement(s);
    let t = sorted(s);
    assert forall|i: int| 0 <= i < s.len() implies t.contains(#[trigger] s[i]) by {
        assert(s.contains(s[i]));
        assert(s.to_multiset().contains(s[i]));
        assert(t.to_multiset().contains(s[i]));
    }
    assert forall|j: int| 0 <= j < t.len() implies s.contains(#[trigger] t[j]) by {
        assert(t.contains(t[j]));
        assert(t.to_multiset().contains(t[j]));
        assert(s.to_multiset().contains(t[j]));
    }
}

/// The minimum of a non-empty sequence is one of its elements and no element
/// is smaller; the maximum is one of its elements and no element is larger.
pub proof fn lemma_minimum_maximum(s: Seq<Fixed>)
    requires
        s.len() > 0,
    ensures
        forall|i: int| 0 <= i < s.len() ==> minimum(s) <= #[trigger] s[i]@ <= maximum(s),
        exists|i: int| 0 <= i < s.len() && s[i]@ == minimum(s),
        exists|i: int| 0 <= i < s.len() && s[i]@ == maximum(s),
{
    lemma_sorted_is_ascending_rearrangement(s);
    lemma_sorted_same_elements(s);
    let t = sorted(s);
    let last: int = s.len() - 1;
    assert forall|i: int| 0 <= i < s.len() implies minimum(s) <= #[trigger] s[i]@ <= maximum(s) by {
        assert(t.contains(s[i]));
        let j: int = choose|j: int| 0 <= j < t.len() && t[j] == s[i];
        assert(t[0]@ <= t[j]@);
        assert(t[j]@ <= t[last]@);
    }
    assert(s.contains(t[0]));
    let lo: int = choose|i: int| 0 <= i < s.len() && s[i] == t[0];
    assert(s[lo]@ == minimum(s));
    assert(s.contains(t[last]));
    let hi: int = choose|i: int| 0 <= i < s.len() && s[i] == t[last];
    assert(s[hi]@ == maximum(s));
}

/// Of a non-empty sequence, the median and the mean lie between the minimum
/// and the maximum.
pub proof fn lemma_statistics_ordered(s: Seq<Fixed>)
    requires
        s.len() > 0,
    ensures
        minimum(s) <= median(s) <= maximum(s),
        minimum(s) <= mean(s) <= maximum(s),
{
    lemma_sorted_is_ascending_rearrangement(s);
    lemma_minimum_maximum(s);
    lemma_mean_within(s, minimum(s), maximum(s));
    let t = sorted(s);
    let half: int = s.len() as int / 2;
    let last: int = s.len() - 1;
    if s.len() % 2 == 0 {
        assert(t[0]@ <= t[half - 1]@);
        assert(t[half - 1]@ <= t[half]@);
        assert(t[half]@ <= t[last]@);
    } else {
        assert(t[0]@ <= t[half]@);
        assert(t[half]@ <= t[last]@);
    }
}

/// A copy of `values` in ascending order.
pub fn sorted_copy(values: &[Fixed]) -> (r: Vec<Fixed>)
    ensures
        r@ == sorted(values@),
{
    let n: usize = values.len();
    let mut out: Vec<Fixed> = Vec::new();
    let mut i: usize = 0;
    assert(values@.take(0) =~= out@);
    while i < n
        invariant
            n == values.len(),
            0 <= i <= n,
            out.len() == i,
            out@.to_multiset() == values@.take(i as int).to_multiset(),
            sorted_by(out@, leq()),
        decreases n - i,
    {
        let x: Fixed = values[i];
        let mut pos: usize = 0;
        while pos < out.len() && out[pos].micros <= x.micros
            invariant
                0 <= pos <= out.len(),
                forall|k: int| 0 <= k < pos ==> out@[k]@ <= x@,
            decreases out.len() - pos,
        {
            pos = pos + 1;
        }
        let ghost before = out@;
        out.insert(pos, x);
        proof {
            broadcast use vstd::seq_lib::group_to_multiset_ensures;

            let prefix = values@.take(i as int);
            let next = values@.take(i + 1);
            assert(next =~= prefix.push(x));
            assert(out@ == before.insert(pos as int, x));
            assert forall|a: int, b: int| 0 <= a < b < out@.len() implies #[trigger] leq()(
                out@[a],
                out@[b],
            ) by {
                if b < pos {
                    assert(leq()(before[a], before[b]));
                } else if b == pos {
                    assert(before[a]@ <= x@);
                } else if a < pos {
                    assert(leq()(before[a], before[b - 1]));
                } else if a == pos {
                    if pos < b - 1 {
                        assert(leq()(before[pos as int], before[b - 1]));
                    }
                } else {
                    assert(leq()(before[a - 1], before[b - 1]));
                }
            }
        }
        i = i + 1;
    }
    proof {
        assert(values@.take(n as int) =~= values@);
        assert forall|i: int, j: int| 0 <= i <= j < out@.len() implies #[trigger] out@[i]@
            <= #[trigger] out@[j]@ by {
            if i < j {
                assert(leq()(out@[i], out@[j]));
            }
        }
        lemma_sorted_is_unique(values@, out@);
    }
    out
}

} // verus!

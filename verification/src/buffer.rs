//! Raw buffer views: a borrowed pointer-plus-length region is received as a
//! slice, read during the call, and never retained. The one operation is a
//! reduction that computes the maximum byte of the view.

use vstd::prelude::*;

verus! {

/// The maximum element of a byte sequence, with 0 for the empty sequence.
pub open spec fn seq_max(s: Seq<u8>) -> u8
    decreases s.len(),
{
    if s.len() == 0 {
        0u8
    } else if s.last() >= seq_max(s.drop_last()) {
        s.last()
    } else {
        seq_max(s.drop_last())
    }
}

/// `seq_max` is the mathematical maximum: no element exceeds it, and on a
/// non-empty sequence it is attained by some element. On the empty
/// sequence it is the defined default 0.
pub proof fn lemma_seq_max_is_max(s: Seq<u8>)
    ensures
        forall|i: int| 0 <= i < s.len() ==> s[i] <= seq_max(s),
        s.len() > 0 ==> exists|i: int| 0 <= i < s.len() && s[i] == seq_max(s),
        s.len() == 0 ==> seq_max(s) == 0,
    decreases s.len(),
{
    if s.len() > 0 {
        lemma_seq_max_is_max(s.drop_last());
        assert(forall|i: int| 0 <= i < s.len() - 1 ==> s[i] == s.drop_last()[i]);
        if s.last() < seq_max(s) {
            let w = choose|i: int| 0 <= i < s.len() - 1 && s.drop_last()[i] == seq_max(
                s.drop_last(),
            );
            assert(s[w] == seq_max(s));
        }
    }
}

/// Computes the maximum element of a borrowed byte view; a zero-length
/// view yields the defined default 0. The view is only read, never stored.
pub fn max(xs: &[u8]) -> (r: u8)
    ensures
        r == seq_max(xs@),
        forall|i: int| 0 <= i < xs@.len() ==> xs@[i] <= r,
        xs@.len() == 0 ==> r == 0,
        xs@.len() > 0 ==> exists|i: int| 0 <= i < xs@.len() && xs@[i] == r,
{
    let mut r: u8 = 0;
    let mut i: usize = 0;
    while i < xs.len()
        invariant
            0 <= i <= xs@.len(),
            r == seq_max(xs@.subrange(0, i as int)),
        decreases xs@.len() - i,
    {
        let v = *vstd::slice::slice_index_get(xs, i);
        proof {
            assert(xs@.subrange(0, i + 1).drop_last() =~= xs@.subrange(0, i as int));
            assert(xs@.subrange(0, i + 1).last() == xs@[i as int]);
        }
        if v > r {
            r = v;
        }
        i = i + 1;
    }
    proof {
        assert(xs@.subrange(0, xs@.len() as int) =~= xs@);
        lemma_seq_max_is_max(xs@);
    }
    r
}

} // verus!

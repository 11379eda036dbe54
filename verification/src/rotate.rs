//! Cyclic rotation of a grapheme-cluster sequence: one scroll step moves the
//! first cluster to the end.

use vstd::prelude::*;

verus! {

/// One left cyclic rotation: the first element moves to the end.
/// An empty sequence is unchanged.
pub open spec fn rotate_spec<A>(s: Seq<A>) -> Seq<A> {
    if s.len() == 0 {
        s
    } else {
        s.drop_first().push(s.first())
    }
}

/// `n` left rotations in a row.
pub open spec fn rotate_n_spec<A>(s: Seq<A>, n: nat) -> Seq<A>
    decreases n,
{
    if n == 0 {
        s
    } else {
        rotate_spec(rotate_n_spec(s, (n - 1) as nat))
    }
}

/// One right cyclic rotation: the last element moves to the front.
/// The inverse of `rotate_spec`.
pub open spec fn rotate_back_spec<A>(s: Seq<A>) -> Seq<A> {
    if s.len() == 0 {
        s
    } else {
        seq![s.last()] + s.drop_last()
    }
}

/// Rotates the clusters left by one position, in place.
pub fn rotate(gs: &mut Vec<String>)
    ensures
        final(gs)@ == rotate_spec(old(gs)@),
{
    if gs.len() > 0 {
        let first = gs.remove(0);
        gs.push(first);
        proof {
            assert(gs@ =~= rotate_spec(old(gs)@));
        }
    } else {
        proof {
            assert(gs@ =~= rotate_spec(old(gs)@));
        }
    }
}

/// Law: rotation is a bijection on sequences of a fixed length:
/// `rotate_back_spec` undoes it on either side.
pub proof fn lemma_rotate_bijective<A>(s: Seq<A>)
    ensures
        rotate_back_spec(rotate_spec(s)) == s,
        rotate_spec(rotate_back_spec(s)) == s,
{
    if s.len() == 0 {
    } else {
        assert(rotate_back_spec(rotate_spec(s)) =~= s);
        assert(rotate_spec(rotate_back_spec(s)) =~= s);
    }
}

/// `k` rotations of a sequence of length at least `k` move the first `k`
/// elements, in order, to the end.
proof fn lemma_rotate_n_decompose<A>(s: Seq<A>, k: nat)
    requires
        k <= s.len(),
    ensures
        rotate_n_spec(s, k) == s.skip(k as int) + s.take(k as int),
    decreases k,
{
    if k == 0 {
        assert(rotate_n_spec(s, 0) =~= s.skip(0) + s.take(0));
    } else {
        lemma_rotate_n_decompose(s, (k - 1) as nat);
        let prev = s.skip(k as int - 1) + s.take(k as int - 1);
        assert(rotate_n_spec(s, k) == rotate_spec(prev));
        assert(rotate_spec(prev) =~= s.skip(k as int) + s.take(k as int));
    }
}

/// Law: rotating a sequence exactly `length` times restores the original
/// sequence (the cyclic law).
pub proof fn lemma_rotate_cycle<A>(s: Seq<A>)
    ensures
        rotate_n_spec(s, s.len()) == s,
{
    lemma_rotate_n_decompose(s, s.len());
    assert(s.skip(s.len() as int) + s.take(s.len() as int) =~= s);
}

} // verus!

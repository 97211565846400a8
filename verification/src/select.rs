//! Keeping the entries of a list that a test selected.
use vstd::prelude::*;

verus! {

/// The entries of `v` whose flag in `keep` is set, in order.
pub open spec fn kept<T>(v: Seq<T>, keep: Seq<bool>) -> Seq<T>
    decreases v.len(),
{
    if v.len() == 0 {
        Seq::empty()
    } else {
        let prev = kept(v.drop_last(), keep);
        if keep[v.len() - 1] {
            prev.push(v.last())
        } else {
            prev
        }
    }
}

/// Moves out of `v` the entries whose flag in `keep` is set, in order.
pub fn select<T>(v: Vec<T>, keep: &Vec<bool>) -> (r: Vec<T>)
    requires
        keep.len() == v.len(),
    ensures
        r@ == kept(v@, keep@),
{
    let ghost orig = v@;
    let mut v = v;
    let mut r: Vec<T> = Vec::new();
    let mut i: usize = 0;
    while v.len() > 0
        invariant
            i <= orig.len(),
            keep.len() == orig.len(),
            v@ == orig.skip(i as int),
            r@ == kept(orig.take(i as int), keep@),
        decreases v.len(),
    {
        let x = v.remove(0);
        proof {
            assert(orig.take(i + 1).drop_last() == orig.take(i as int));
            assert(orig.skip(i as int).remove(0) == orig.skip(i + 1));
        }
        if keep[i] {
            r.push(x);
        }
        i += 1;
    }
    assert(orig.take(orig.len() as int) == orig);
    r
}

} // verus!

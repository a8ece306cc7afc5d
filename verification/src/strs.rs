//! Small helpers for stating contracts about lists of strings.

use vstd::prelude::*;

verus! {

/// The views of a sequence of strings.
pub open spec fn views(ss: Seq<String>) -> Seq<Seq<char>> {
    ss.map_values(|s: String| s@)
}

pub proof fn lemma_views_add(a: Seq<String>, b: Seq<String>)
    ensures
        views(a + b) == views(a) + views(b),
{
    assert(views(a + b) =~~= views(a) + views(b));
}

/// Append every element of `more` to `v`, in order.
pub fn extend_strings(v: &mut Vec<String>, more: &Vec<String>)
    ensures
        final(v)@ == old(v)@ + more@,
{
    let ghost orig = v@;
    let mut i: usize = 0;
    while i < more.len()
        invariant
            0 <= i <= more@.len(),
            v@ == orig + more@.take(i as int),
        decreases more@.len() - i,
    {
        v.push(more[i].clone());
        proof {
            assert(orig + more@.take(i + 1) =~= (orig + more@.take(i as int)).push(more@[i as int]));
        }
        i += 1;
    }
    proof {
        assert(orig + more@.take(more@.len() as int) =~= orig + more@);
    }
}

} // verus!

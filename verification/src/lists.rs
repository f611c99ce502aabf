//! Small helpers on vectors.

use vstd::prelude::*;

verus! {

/// The items of `v` in reverse order. A vector that is to be emptied item by
/// item from its front is reversed once and then emptied from its back.
pub fn reversed<T>(v: Vec<T>) -> (r: Vec<T>)
    ensures
        r@ == v@.reverse(),
{
    let ghost all = v@;
    let mut rest = v;
    let mut out: Vec<T> = Vec::new();
    while rest.len() > 0
        invariant
            rest@ == all.take(rest.len() as int),
            out.len() + rest.len() == all.len(),
            forall|j: int| 0 <= j < out.len() ==> out@[j] == all[all.len() - 1 - j],
        decreases rest.len(),
    {
        let item = rest.pop().unwrap();
        out.push(item);
        assert(rest@ =~= all.take(rest.len() as int));
    }
    assert(out@ =~= all.reverse());
    out
}

/// Takes the next item of a list that `reversed` has turned round: the item
/// at index `i` of the list `all` as it was.
pub(crate) fn take_next<T>(rest: &mut Vec<T>, Ghost(all): Ghost<Seq<T>>, Ghost(i): Ghost<int>) -> (item: T)
    requires
        0 <= i < all.len(),
        old(rest)@ == all.skip(i).reverse(),
    ensures
        item == all[i],
        final(rest)@ == all.skip(i + 1).reverse(),
        final(rest).len() == all.len() - i - 1,
{
    let item = rest.pop().unwrap();
    assert(rest@ =~= all.skip(i + 1).reverse());
    item
}

} // verus!

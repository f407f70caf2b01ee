//! Moving the items of a vector out in order.

use vstd::prelude::*;

verus! {

/// The items of `v` in reverse order, moved, not copied.
pub fn reversed<T>(v: Vec<T>) -> (r: Vec<T>)
    ensures
        r@ == v@.reverse(),
{
    let ghost all = v@;
    let mut rest = v;
    let mut out: Vec<T> = Vec::new();
    while rest.len() > 0
        invariant
            out@ == all.skip(rest@.len() as int).reverse(),
            rest@ == all.take(rest@.len() as int),
            rest@.len() <= all.len(),
        decreases rest.len(),
    {
        let ghost n = rest@.len();
        let x = rest.pop().unwrap();
        let ghost o0 = out@;
        out.push(x);
        assert(all.skip(n - 1) =~= seq![x] + all.skip(n as int));
        assert(out@ =~= all.skip(n - 1).reverse());
        assert(rest@ =~= all.take(n - 1));
    }
    assert(all.skip(0) =~= all);
    out
}

} // verus!

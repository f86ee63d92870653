use vstd::prelude::*;

verus! {

/// Adds `amount` to every element of `v`, in place.
pub fn add_to_all(v: &mut Vec<i32>, amount: i32)
    requires
        forall|k: int|
            0 <= k < old(v).len() ==> i32::MIN <= #[trigger] old(v)[k] + amount <= i32::MAX,
    ensures
        final(v).len() == old(v).len(),
        forall|k: int| 0 <= k < old(v).len() ==> #[trigger] final(v)[k] == old(v)[k] + amount,
{
    let ghost before = v@;
    let n = v.len();
    for i in 0..n
        invariant
            n == before.len(),
            v.len() == before.len(),
            forall|k: int|
                0 <= k < before.len() ==> i32::MIN <= #[trigger] before[k] + amount <= i32::MAX,
            forall|k: int| 0 <= k < i ==> #[trigger] v[k] == before[k] + amount,
            forall|k: int| i <= k < v.len() ==> #[trigger] v[k] == before[k],
    {
        v[i] = v[i] + amount;
    }
}

} // verus!

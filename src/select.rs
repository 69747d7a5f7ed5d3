use vstd::prelude::*;

verus! {

/// Whether every answer that `test` may give on `x` is `true`.
pub open spec fn only_passes<T, F: Fn(&T) -> bool>(test: F, x: &T) -> bool {
    forall|b: bool| #[trigger] test.ensures((x,), b) ==> b
}

/// Position of the first item, in order, that passes `test`, or `None`
/// when none does. Every item before the one returned failed the test, so
/// where several items pass, the earliest of them is chosen: an item on
/// which the test can only answer `true` is never passed over.
pub fn first_index<T, F: Fn(&T) -> bool>(items: &Vec<T>, test: F) -> (r: Option<usize>)
    requires
        forall|i: int| 0 <= i < items@.len() ==> test.requires((&items@[i],)),
    ensures
        (match r {
            Some(i) => {
                &&& i < items@.len()
                &&& test.ensures((&items@[i as int],), true)
                &&& forall|j: int| 0 <= j < i ==> test.ensures((&items@[j],), false)
            },
            None => forall|j: int| 0 <= j < items@.len() ==> test.ensures((&items@[j],), false),
        }),
        forall|j: int|
            0 <= j < items@.len() && #[trigger] only_passes(test, &items@[j]) ==> (r is Some && r->0
                <= j),
{
    let mut k: usize = 0;
    while k < items.len()
        invariant
            k <= items@.len(),
            forall|i: int| 0 <= i < items@.len() ==> test.requires((&items@[i],)),
            forall|j: int| 0 <= j < k ==> test.ensures((&items@[j],), false),
        decreases items@.len() - k,
    {
        if test(&items[k]) {
            return Some(k);
        }
        k = k + 1;
    }
    None
}

} // verus!

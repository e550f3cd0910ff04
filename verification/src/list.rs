//! Facts about lists.
use vstd::prelude::*;

verus! {

/// What is kept of a list was in it.
pub proof fn filter_keeps_members<T>(list: Seq<T>, keep: spec_fn(T) -> bool)
    ensures
        forall|i: int|
            0 <= i < list.filter(keep).len() ==> list.contains(#[trigger] list.filter(keep)[i]),
    decreases list.len(),
{
    reveal(Seq::filter);
    if list.len() > 0 {
        let init = list.drop_last();
        filter_keeps_members(init, keep);
        assert forall|i: int| 0 <= i < list.filter(keep).len() implies list.contains(
            #[trigger] list.filter(keep)[i],
        ) by {
            if i < init.filter(keep).len() {
                assert(init.contains(init.filter(keep)[i]));
                let j = choose|j: int| 0 <= j < init.len() && init[j] == init.filter(keep)[i];
                assert(list[j] == list.filter(keep)[i]);
            } else {
                assert(list[list.len() - 1] == list.filter(keep)[i]);
            }
        }
    }
}

} // verus!

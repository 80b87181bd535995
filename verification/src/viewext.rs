//! Small helpers about the deep views of vectors.

use vstd::prelude::*;

verus! {

/// Pushing onto a vector pushes the element's view onto the deep view.
pub proof fn lemma_vec_deep_view_push<T: DeepView>(old_v: Vec<T>, new_v: Vec<T>, x: T)
    requires
        new_v@ == old_v@.push(x),
    ensures
        new_v.deep_view() =~= old_v.deep_view().push(x.deep_view()),
{
    assert forall|j: int| 0 <= j < new_v.deep_view().len() implies new_v.deep_view()[j]
        == old_v.deep_view().push(x.deep_view())[j] by {
        if j < old_v@.len() {
            assert(new_v@[j] == old_v@[j]);
        } else {
            assert(new_v@[j] == x);
        }
    }
}

} // verus!

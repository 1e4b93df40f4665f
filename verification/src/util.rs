//! Small helpers shared by the other modules: element-wise deep views of
//! sequences and exact string comparison.

use vstd::prelude::*;
use vstd::string::StrSliceExecFns;

verus! {

broadcast use vstd::std_specs::vec::group_vec_axioms;

/// The element-wise deep view of a sequence.
pub open spec fn dv<T: DeepView>(s: Seq<T>) -> Seq<T::V> {
    Seq::new(s.len(), |i: int| s[i].deep_view())
}

/// A vector's deep view is the element-wise deep view of its view.
pub proof fn lemma_vec_dv<T: DeepView>(v: &Vec<T>)
    ensures
        v.deep_view() == dv(v@),
{
    assert(v.deep_view() =~= dv(v@));
}

/// Pushing an element commutes with taking deep views.
pub proof fn lemma_dv_push<T: DeepView>(s: Seq<T>, x: T)
    ensures
        dv(s.push(x)) == dv(s).push(x.deep_view()),
{
    assert(dv(s.push(x)) =~= dv(s).push(x.deep_view()));
}

/// Exact character-wise equality of two string slices.
pub fn str_eq_str(a: &str, b: &str) -> (r: bool)
    ensures
        r == (a@ == b@),
{
    let alen = a.unicode_len();
    let blen = b.unicode_len();
    if alen != blen {
        return false;
    }
    let mut i: usize = 0;
    while i < alen
        invariant
            alen == a@.len(),
            alen == b@.len(),
            i <= alen,
            forall|j: int| 0 <= j < i ==> a@[j] == b@[j],
        decreases alen - i,
    {
        if a.get_char(i) != b.get_char(i) {
            return false;
        }
        i += 1;
    }
    proof {
        assert(a@ =~= b@);
    }
    true
}

} // verus!

//! The persistent list of values.
//!
//! Values of the language may hold lists; duplicating a list must share
//! the underlying nodes rather than deep-copy them, so lists are backed
//! by a persistent (immutable, structure-sharing) list from the `rpds`
//! crate. The backing container is opaque to the verifier: everything
//! the engine knows about a list is phrased over `list_elems`, the
//! front-to-back sequence of values it holds.

use vstd::prelude::*;
use crate::value::Value;

verus! {

/// What a persistent list holds, as a sequence in front-to-back order.
pub uninterp spec fn list_elems(l: VList) -> Seq<Value>;

/// An immutable list of values with structural sharing: extending a
/// duplicate never mutates or copies the original's backing nodes.
#[verifier::external_body]
pub struct VList {
    inner: rpds::List<Value>,
}

impl VList {
    /// Relies on `rpds::List::new`: creates an empty list.
    #[verifier::external_body]
    pub fn empty() -> (l: VList)
        ensures
            list_elems(l) == Seq::<Value>::empty(),
    {
        VList { inner: rpds::List::new() }
    }

    /// Relies on `rpds::List::push_front`: returns a new list whose first
    /// element is `v` and whose remainder is this list, sharing this
    /// list's nodes; the original list is untouched.
    #[verifier::external_body]
    pub fn push_front(&self, v: Value) -> (l: VList)
        ensures
            list_elems(l) == seq![v] + list_elems(*self),
    {
        VList { inner: self.inner.push_front(v) }
    }

    /// Relies on `rpds::List::len`: the number of elements.
    #[verifier::external_body]
    pub fn len(&self) -> (n: usize)
        ensures
            n == list_elems(*self).len(),
    {
        self.inner.len()
    }

    /// Relies on `rpds::List::iter`, which yields the elements front to
    /// back; each element is handed out as its own duplicate.
    #[verifier::external_body]
    pub fn to_vec(&self) -> (v: Vec<Value>)
        ensures
            v@ == list_elems(*self),
    {
        self.inner.iter().map(|e| e.duplicate()).collect()
    }

    /// Relies on `rpds::List::clone`: returns a list backed by the very
    /// same nodes, indistinguishable from the original.
    #[verifier::external_body]
    pub fn duplicate(&self) -> (l: VList)
        ensures
            l == *self,
    {
        VList { inner: self.inner.clone() }
    }

    /// Builds a list holding exactly the given values, front to back.
    pub fn from_vec(items: &Vec<Value>) -> (l: VList)
        ensures
            list_elems(l) == items@,
    {
        let mut l = VList::empty();
        let mut i: usize = items.len();
        proof {
            assert(items@.skip(i as int) =~= Seq::<Value>::empty());
        }
        while i > 0
            invariant
                i <= items@.len(),
                list_elems(l) == items@.skip(i as int),
            decreases i,
        {
            i = i - 1;
            l = l.push_front(items[i].duplicate());
            proof {
                assert(seq![items@[i as int]] + items@.skip(i + 1) =~= items@.skip(i as int));
            }
        }
        proof {
            assert(items@.skip(0) =~= items@);
        }
        l
    }
}

} // verus!

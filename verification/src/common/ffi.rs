//! The owned raw-array wrapper: a sequence of rich records kept side by side
//! with the flat host-layout records built from them, sharing one lifetime.

use vstd::prelude::*;

verus! {

/// A rich record that can be flattened into a host-layout record `R`.
pub trait AsInner<R: View> {
    /// What the flat record built from this rich record holds.
    spec fn spec_inner(&self) -> <R as View>::V;

    /// Builds the flat record.
    fn as_inner(&self) -> (r: R)
        ensures
            r@ == self.spec_inner(),
    ;
}

/// A rich record whose flat form can also be written back.
pub trait AsMutInner<R: View>: AsInner<R> {
    fn set_inner(&mut self, raw: R)
        ensures
            final(self).spec_inner() == raw@,
    ;
}

/// An owned array of rich records together with the flat records the host
/// iterates. Both sequences are built in one shot and dropped together, so a
/// flat record never outlives the buffers its rich record owns.
pub struct Array<T, R> where T: AsInner<R>, R: View {
    buf: Vec<T>,
    buf_of_inner: Vec<R>,
}

impl<T, R> Array<T, R> where T: AsInner<R>, R: View {
    /// The rich records.
    pub closed spec fn rich(&self) -> Seq<T> {
        self.buf@
    }

    /// The flat records, in the same order.
    pub closed spec fn raw(&self) -> Seq<R> {
        self.buf_of_inner@
    }

    /// Each flat record is exactly the flattening of the rich record at the
    /// same index.
    pub open spec fn wf(&self) -> bool {
        &&& self.raw().len() == self.rich().len()
        &&& forall|i: int|
            0 <= i < self.rich().len() ==> self.raw()[i]@ == #[trigger] self.rich()[i].spec_inner()
    }

    /// An empty array.
    pub fn new() -> (r: Self)
        ensures
            r.rich() == Seq::<T>::empty(),
            r.raw() == Seq::<R>::empty(),
            r.wf(),
    {
        Array { buf: Vec::new(), buf_of_inner: Vec::new() }
    }

    /// The flat records the host reads; valid exactly as long as the array is
    /// alive.
    pub fn as_ptr(&self) -> (r: &Vec<R>)
        ensures
            r@ == self.raw(),
    {
        &self.buf_of_inner
    }

    /// How many records the host may read.
    pub fn len(&self) -> (r: usize)
        ensures
            r == self.rich().len(),
    {
        self.buf.len()
    }

    /// The one-shot constructor: flattens every rich record and stores both
    /// sequences together. There is no mutation interface, so a flat record
    /// the host has already seen is never invalidated while the array lives.
    pub fn from(v: Vec<T>) -> (r: Self)
        ensures
            r.rich() == v@,
            r.wf(),
    {
        let mut buf_of_inner: Vec<R> = Vec::new();
        let n = v.len();
        let mut i: usize = 0;
        while i < n
            invariant
                n == v@.len(),
                i <= n,
                buf_of_inner@.len() == i as int,
                forall|j: int|
                    0 <= j < i as int ==> buf_of_inner@[j]@ == #[trigger] v@[j].spec_inner(),
            decreases n - i,
        {
            let raw = v[i].as_inner();
            buf_of_inner.push(raw);
            i = i + 1;
        }
        Array { buf: v, buf_of_inner }
    }
}

/// An `Array` built from `n` rich records reports `len() == n`, and the flat
/// record at each index flattens the rich record at the same index.
pub proof fn lemma_array_faithful<T, R>(a: Array<T, R>) where T: AsInner<R>, R: View
    requires
        a.wf(),
    ensures
        a.raw().len() == a.rich().len(),
        forall|i: int|
            0 <= i < a.rich().len() ==> a.raw()[i]@ == #[trigger] a.rich()[i].spec_inner(),
{
}

} // verus!

use vstd::prelude::*;

verus! {

/// True when `T` and `U` have the same size and the same alignment, so that a
/// slot made for one can hold the other.
pub open spec fn spec_same_layout<T, U>() -> bool {
    &&& vstd::layout::size_of::<T>() == vstd::layout::size_of::<U>()
    &&& vstd::layout::align_of::<T>() == vstd::layout::align_of::<U>()
}

/// Whether a slot made for a `T` can hold a `U`: same size, same alignment.
pub fn same_layout<T, U>() -> (r: bool)
    ensures
        r == spec_same_layout::<T, U>(),
{
    core::mem::size_of::<T>() == core::mem::size_of::<U>() && core::mem::align_of::<T>()
        == core::mem::align_of::<U>()
}

/// Relies on `Vec::capacity`: the number of elements the vector holds without
/// reallocating, hence no less than its length.
#[verifier::external_body]
pub(crate) fn capacity_of<T>(v: &Vec<T>) -> (r: usize)
    ensures
        r >= v@.len(),
{
    v.capacity()
}

/// A vector taken apart for a transformation: the elements not read yet, the
/// length and the capacity it had when it was taken apart.
pub(crate) struct Input<T> {
    /// The unread elements, the next one to read last.
    pending: Vec<T>,
    len: usize,
    cap: usize,
}

impl<T> Input<T> {
    /// The unread elements, the next one to read first.
    pub(crate) closed spec fn unread(&self) -> Seq<T> {
        self.pending@.reverse()
    }

    pub(crate) closed spec fn spec_len(&self) -> usize {
        self.len
    }

    pub(crate) closed spec fn spec_cap(&self) -> usize {
        self.cap
    }

    /// Takes `vec` apart; every element of it is unread.
    pub(crate) fn new(vec: Vec<T>) -> (r: Self)
        ensures
            r.unread() == vec@,
            r.spec_len() == vec@.len(),
            r.spec_cap() >= vec@.len(),
    {
        let len = vec.len();
        let cap = capacity_of(&vec);
        let mut rest = vec;
        let mut pending: Vec<T> = Vec::new();
        while rest.len() > 0
            invariant
                len == vec@.len(),
                rest@.len() + pending@.len() == len,
                rest@ == vec@.subrange(0, rest@.len() as int),
                forall|i: int|
                    0 <= i < pending@.len() ==> #[trigger] pending@[i] == vec@[len - 1 - i],
            decreases rest@.len(),
        {
            let x = rest.pop().unwrap();
            pending.push(x);
        }
        let r = Input { pending, len, cap };
        assert(r.unread() =~= vec@);
        r
    }

    /// The length the vector had when it was taken apart.
    pub(crate) fn len(&self) -> (r: usize)
        ensures
            r == self.spec_len(),
    {
        self.len
    }

    /// The capacity the vector had when it was taken apart.
    pub(crate) fn cap(&self) -> (r: usize)
        ensures
            r == self.spec_cap(),
    {
        self.cap
    }

    /// Moves the next unread element out.
    pub(crate) fn read(&mut self) -> (r: T)
        requires
            old(self).unread().len() > 0,
        ensures
            r == old(self).unread()[0],
            final(self).unread() == old(self).unread().drop_first(),
            final(self).spec_len() == old(self).spec_len(),
            final(self).spec_cap() == old(self).spec_cap(),
    {
        let r = self.pending.pop().unwrap();
        assert(self.unread() =~= old(self).unread().drop_first());
        r
    }

    /// Gives up the unread elements, in no particular order.
    pub(crate) fn into_unread(self) -> (r: Vec<T>)
        ensures
            r@.len() == self.unread().len(),
    {
        self.pending
    }
}

} // verus!

use vstd::prelude::*;
use crate::buffer::{capacity_of, same_layout};
use crate::cursor::{callable_on, fails_first, into_vec, mapped, never_fails, try_into_vec};

verus! {

/// Applies `f` to each element of `v` in order and collects the outputs into
/// a newly allocated vector, stopping at the first error.
fn collect_fresh<T, U, E, F: FnMut(T) -> Result<U, E>>(v: Vec<T>, f: F) -> (r: Result<Vec<U>, E>)
    requires
        callable_on(f, v@),
    ensures
        r is Ok ==> mapped(f, v@, r->Ok_0@),
        r is Err ==> exists|k: int| #[trigger] fails_first(f, v@, k, r->Err_0),
        never_fails(f, v@) ==> r is Ok,
{
    let ghost xs = v@;
    let mut g = f;
    let mut out: Vec<U> = Vec::new();
    for x in it: v.into_iter()
        invariant
            it.seq() == xs,
            xs == v@,
            g == f,
            callable_on(f, xs),
            mapped(f, xs.take(it.index()), out@),
    {
        let ghost k = it.index();
        match g(x) {
            Ok(u) => {
                out.push(u);
                assert(xs.take(k + 1) =~= xs.take(k).push(xs[k]));
            },
            Err(e) => {
                let r: Result<Vec<U>, E> = Err(e);
                assert(fails_first(f, v@, k, r->Err_0));
                return r;
            },
        }
    }
    assert(xs.take(xs.len() as int) =~= xs);
    Ok(out)
}

/// Applies `f` to each element of `v` in order and collects the outputs into
/// a newly allocated vector.
fn collect_fresh_infallible<T, U, F: FnMut(T) -> U>(v: Vec<T>, f: F) -> (r: Vec<U>)
    requires
        forall|i: int| 0 <= i < v@.len() ==> f.requires((#[trigger] v@[i],)),
    ensures
        r@.len() == v@.len(),
        forall|i: int| 0 <= i < v@.len() ==> f.ensures((v@[i],), #[trigger] r@[i]),
{
    let ghost xs = v@;
    let mut g = f;
    let mut out: Vec<U> = Vec::new();
    for x in it: v.into_iter()
        invariant
            it.seq() == xs,
            g == f,
            forall|i: int| 0 <= i < xs.len() ==> f.requires((#[trigger] xs[i],)),
            out@.len() == it.index(),
            forall|i: int| 0 <= i < it.index() ==> f.ensures((xs[i],), #[trigger] out@[i]),
    {
        out.push(g(x));
    }
    out
}

/// Extension methods for `Vec<T>`: map it to a `Vec` of another element
/// type. When the two types share their layout, the elements are walked in
/// place and the result has at least the input's capacity; otherwise they are
/// collected into a fresh vector.
pub trait VecExt: Sized {
    /// The type of the elements.
    type T;

    /// The elements, in order.
    spec fn elems(&self) -> Seq<Self::T>;

    /// Maps each element through `f`, in order; the result has the same
    /// length and holds at each index what `f` returned for the element there.
    fn map<U, F: FnMut(Self::T) -> U>(self, f: F) -> (r: Vec<U>)
        requires
            forall|i: int| 0 <= i < self.elems().len() ==> f.requires((#[trigger] self.elems()[i],)),
        ensures
            r@.len() == self.elems().len(),
            forall|i: int|
                0 <= i < self.elems().len() ==> f.ensures((self.elems()[i],), #[trigger] r@[i]),
    ;

    /// Maps each element through the fallible `f`, in order. Succeeds with
    /// the outputs when `f` succeeds on every element. Otherwise returns the
    /// first error; `f` is not called again, and the outputs made so far and
    /// the elements not handed to `f` are dropped.
    fn try_map<U, E, F: FnMut(Self::T) -> Result<U, E>>(self, f: F) -> (r: Result<Vec<U>, E>)
        requires
            callable_on(f, self.elems()),
        ensures
            r is Ok ==> mapped(f, self.elems(), r->Ok_0@),
            r is Err ==> exists|k: int| #[trigger] fails_first(f, self.elems(), k, r->Err_0),
            never_fails(f, self.elems()) ==> r is Ok && r->Ok_0@.len() == self.elems().len(),
            self.elems().len() == 0 ==> r is Ok && r->Ok_0@.len() == 0,
    ;

    /// Drops every element and returns an empty vector, which keeps the
    /// capacity, or more, when `U` has the layout of the elements and has none
    /// otherwise.
    fn recycle<U>(self) -> (r: Vec<U>)
        ensures
            r@.len() == 0,
    ;
}

impl<T> VecExt for Vec<T> {
    type T = T;

    open spec fn elems(&self) -> Seq<T> {
        self@
    }

    fn map<U, F: FnMut(T) -> U>(self, f: F) -> (r: Vec<U>) {
        assert(self.elems() == self@);
        if same_layout::<T, U>() {
            into_vec(self, f)
        } else {
            collect_fresh_infallible(self, f)
        }
    }

    fn try_map<U, E, F: FnMut(T) -> Result<U, E>>(self, f: F) -> (r: Result<Vec<U>, E>) {
        assert(self.elems() == self@);
        if same_layout::<T, U>() {
            match try_into_vec(self, f) {
                Ok(v) => Ok(v),
                Err(failure) => {
                    let ghost k = failure.outputs_dropped as int;
                    let r: Result<Vec<U>, E> = Err(failure.error);
                    assert(fails_first(f, self@, k, r->Err_0));
                    r
                },
            }
        } else {
            collect_fresh(self, f)
        }
    }

    fn recycle<U>(self) -> (r: Vec<U>) {
        let mut v = self;
        v.clear();
        if same_layout::<T, U>() {
            Vec::with_capacity(capacity_of(&v))
        } else {
            Vec::new()
        }
    }
}

} // verus!

use vstd::prelude::*;
use crate::buffer::Input;

verus! {

/// Relies on `replace_with::on_return_or_unwind`: it returns what `f` returns,
/// and runs `p` once `f` is done, whether `f` returned or unwound.
pub assume_specification<F: FnOnce() -> T, T, P: FnOnce()>[ replace_with::on_return_or_unwind::<
    F,
    T,
    P,
> ](f: F, p: P) -> (r: T)
    requires
        f.requires(()),
        p.requires(()),
    ensures
        f.ensures((), r),
;

/// `ys` holds, element by element, values that `f` returns in `Ok` for `xs`.
pub open spec fn mapped<T, U, E, F: FnMut(T) -> Result<U, E>>(
    f: F,
    xs: Seq<T>,
    ys: Seq<U>,
) -> bool {
    &&& ys.len() == xs.len()
    &&& forall|i: int| 0 <= i < xs.len() ==> f.ensures((xs[i],), Ok::<U, E>(#[trigger] ys[i]))
}

/// `f` succeeds on the first `k` elements of `xs` and returns `e` in `Err` for
/// the element at `k`.
pub open spec fn fails_first<T, U, E, F: FnMut(T) -> Result<U, E>>(
    f: F,
    xs: Seq<T>,
    k: int,
    e: E,
) -> bool {
    &&& 0 <= k < xs.len()
    &&& exists|ys: Seq<U>| mapped(f, xs.take(k), ys)
    &&& f.ensures((xs[k],), Err::<U, E>(e))
}

/// Whatever `f` returns for an element of `xs` is an `Ok`.
pub open spec fn never_fails<T, U, E, F: FnMut(T) -> Result<U, E>>(f: F, xs: Seq<T>) -> bool {
    forall|i: int, o: Result<U, E>|
        0 <= i < xs.len() && #[trigger] f.ensures((xs[i],), o) ==> o is Ok
}

/// `f` may be called on each element of `xs`.
pub open spec fn callable_on<T, U, E, F: FnMut(T) -> Result<U, E>>(f: F, xs: Seq<T>) -> bool {
    forall|i: int| 0 <= i < xs.len() ==> f.requires((#[trigger] xs[i],))
}

/// How a walk that stopped early cleaned up: the error, the number of
/// untouched input elements it dropped and the number of output elements it
/// dropped.
pub(crate) struct Failure<E> {
    pub(crate) error: E,
    pub(crate) inputs_dropped: usize,
    pub(crate) outputs_dropped: usize,
}

/// Drops `items` and says how many there were.
fn discard<V>(items: Vec<V>) -> (n: usize)
    ensures
        n == items@.len(),
{
    items.len()
}

/// Walks a vector taken apart, turning each element into its output in turn.
/// The first `init_len` slots hold outputs; when an element has been read and
/// its output not yet written, its slot holds neither; the slots after it hold
/// the unread elements. The outputs go to a vector made with the input's
/// capacity.
pub(crate) struct MapIter<T, U> {
    init_len: usize,
    data: Input<T>,
    out: Vec<U>,
    source: Ghost<Seq<T>>,
}

impl<T, U> MapIter<T, U> {
    pub(crate) closed spec fn wf(&self) -> bool {
        &&& self.out@.len() == self.init_len
        &&& self.source@.len() == self.data.spec_len()
        &&& self.init_len + self.data.unread().len() <= self.data.spec_len()
        &&& self.data.spec_len() <= self.init_len + self.data.unread().len() + 1
        &&& self.data.unread() == self.source@.skip(self.data.spec_len() - self.data.unread().len())
    }

    /// The elements of the vector the walk started from.
    pub(crate) closed spec fn source(&self) -> Seq<T> {
        self.source@
    }

    /// The number of outputs written.
    pub(crate) closed spec fn position(&self) -> int {
        self.init_len as int
    }

    /// The outputs written, in order.
    pub(crate) closed spec fn written(&self) -> Seq<U> {
        self.out@
    }

    /// The elements not read yet.
    pub(crate) closed spec fn unread(&self) -> Seq<T> {
        self.data.unread()
    }

    /// True when an element has been read and its output is not written yet.
    pub(crate) open spec fn in_flight(&self) -> bool {
        self.position() + self.unread().len() < self.source().len()
    }

    /// Starts a walk over `vec`: nothing written, every element unread.
    pub(crate) fn new(vec: Vec<T>) -> (r: Self)
        ensures
            r.wf(),
            r.source() == vec@,
            r.position() == 0,
            !r.in_flight(),
    {
        let data = Input::new(vec);
        let out = Vec::with_capacity(data.cap());
        let r = MapIter { init_len: 0, data, out, source: Ghost(vec@) };
        assert(vec@.skip(0) =~= vec@);
        r
    }

    /// True when every element has been turned into its output.
    pub(crate) fn is_done(&self) -> (r: bool)
        requires
            self.wf(),
            !self.in_flight(),
        ensures
            r == (self.position() == self.source().len()),
    {
        self.init_len == self.data.len()
    }

    /// Moves the next element out; its slot is torn until `write`.
    pub(crate) fn read(&mut self) -> (r: T)
        requires
            old(self).wf(),
            !old(self).in_flight(),
            old(self).position() < old(self).source().len(),
        ensures
            final(self).wf(),
            final(self).in_flight(),
            r == old(self).source()[old(self).position()],
            final(self).source() == old(self).source(),
            final(self).position() == old(self).position(),
            final(self).written() == old(self).written(),
            final(self).unread().len() == old(self).unread().len() - 1,
    {
        let ghost k = self.data.spec_len() - self.data.unread().len();
        let r = self.data.read();
        assert(self.data.unread() =~= self.source@.skip(k + 1));
        r
    }

    /// Writes the output of the element in flight into its slot.
    pub(crate) fn write(&mut self, value: U)
        requires
            old(self).wf(),
            old(self).in_flight(),
        ensures
            final(self).wf(),
            !final(self).in_flight(),
            final(self).source() == old(self).source(),
            final(self).position() == old(self).position() + 1,
            final(self).written() == old(self).written().push(value),
    {
        self.out.push(value);
        self.init_len = self.init_len + 1;
    }

    /// Ends a walk that wrote every output: the outputs, in order.
    pub(crate) fn finish(self) -> (r: Vec<U>)
        requires
            self.wf(),
            !self.in_flight(),
            self.position() == self.source().len(),
        ensures
            r@ == self.written(),
    {
        self.out
    }

    /// Drops the unread inputs, then the outputs written so far, the latter
    /// also when dropping the former unwinds. Returns how many of each it
    /// dropped.
    pub(crate) fn release(self) -> (r: (usize, usize))
        ensures
            r.0 == self.unread().len(),
            r.1 == self.written().len(),
    {
        let MapIter { init_len, data, out, source } = self;
        let n_out = out.len();
        let pending = data.into_unread();
        let ghost n = pending@.len();
        let inputs = move || -> (k: usize)
            ensures
                k == n,
            { discard(pending) };
        let outputs = move || { discard(out); };
        let n_in = replace_with::on_return_or_unwind(inputs, outputs);
        (n_in, n_out)
    }
}

/// Turns each element of `vec` into its output through the fallible `f`, in
/// order, each output at the index of its input. On the first error it drops
/// the rest and stops, and says how much it dropped.
pub(crate) fn try_into_vec<T, U, E, F: FnMut(T) -> Result<U, E>>(vec: Vec<T>, f: F) -> (r: Result<
    Vec<U>,
    Failure<E>,
>)
    requires
        callable_on(f, vec@),
    ensures
        r is Ok ==> mapped(f, vec@, r->Ok_0@),
        r is Err ==> fails_first(f, vec@, r->Err_0.outputs_dropped as int, r->Err_0.error),
        r is Err ==> r->Err_0.inputs_dropped + r->Err_0.outputs_dropped + 1 == vec@.len(),
        never_fails(f, vec@) ==> r is Ok,
{
    let ghost xs = vec@;
    let mut it: MapIter<T, U> = MapIter::new(vec);
    let mut g = f;
    while !it.is_done()
        invariant
            xs == vec@,
            it.wf(),
            !it.in_flight(),
            it.source() == xs,
            mapped(f, xs.take(it.position()), it.written()),
            callable_on(f, xs),
            g == f,
        decreases xs.len() - it.position(),
    {
        let ghost k = it.position();
        let x = it.read();
        match g(x) {
            Ok(u) => {
                it.write(u);
                assert(xs.take(k + 1) =~= xs.take(k).push(xs[k]));
            },
            Err(e) => {
                assert(mapped(f, xs.take(k), it.written()));
                let (inputs_dropped, outputs_dropped) = it.release();
                let r: Result<Vec<U>, Failure<E>> = Err(Failure { error: e, inputs_dropped, outputs_dropped });
                assert(fails_first(f, vec@, k, r->Err_0.error));
                return r;
            },
        }
    }
    assert(xs.take(xs.len() as int) =~= xs);
    Ok(it.finish())
}

/// Turns each element of `vec` into its output through `f`, in order, each
/// output at the index of its input.
pub(crate) fn into_vec<T, U, F: FnMut(T) -> U>(vec: Vec<T>, f: F) -> (r: Vec<U>)
    requires
        forall|i: int| 0 <= i < vec@.len() ==> f.requires((#[trigger] vec@[i],)),
    ensures
        r@.len() == vec@.len(),
        forall|i: int| 0 <= i < vec@.len() ==> f.ensures((vec@[i],), #[trigger] r@[i]),
{
    let ghost xs = vec@;
    let mut it: MapIter<T, U> = MapIter::new(vec);
    let mut g = f;
    while !it.is_done()
        invariant
            xs == vec@,
            it.wf(),
            !it.in_flight(),
            it.source() == xs,
            it.written().len() == it.position(),
            forall|i: int| 0 <= i < it.position() ==> f.ensures((xs[i],), #[trigger] it.written()[i]),
            forall|i: int| 0 <= i < xs.len() ==> f.requires((#[trigger] xs[i],)),
            g == f,
        decreases xs.len() - it.position(),
    {
        let x = it.read();
        let u = g(x);
        it.write(u);
    }
    it.finish()
}

} // verus!

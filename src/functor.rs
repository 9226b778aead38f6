use vstd::prelude::*;

verus! {

/// A container whose elements can be mapped to values of type `U` while its
/// shape stays as it is.
///
/// `In` is the type of the elements; `Out` is the container of the same shape
/// that holds elements of type `U` instead.
pub trait Functor<U>: Sized {
    type In;
    type Out;

    /// The elements, in the container's natural order.
    spec fn elems(&self) -> Seq<Self::In>;

    /// The elements of a container of the same shape, in the same order.
    spec fn out_elems(o: &Self::Out) -> Seq<U>;

    /// `o` has the shape of `self`: all that is not an element is the same.
    spec fn same_shape(&self, o: &Self::Out) -> bool;

    /// Calls `f` once on each element, in order, and puts each result where
    /// the element stood.
    fn fmap<F: FnMut(Self::In) -> U>(self, f: F) -> (r: Self::Out)
        requires
            forall|i: int|
                0 <= i < self.elems().len() ==> call_requires(f, (#[trigger] self.elems()[i],)),
        ensures
            self.same_shape(&r),
            Self::out_elems(&r).len() == self.elems().len(),
            forall|i: int|
                0 <= i < self.elems().len() ==> call_ensures(
                    f,
                    (self.elems()[i],),
                    #[trigger] Self::out_elems(&r)[i],
                ),
    ;
}

/// `f` may be called on each element of `c`.
pub open spec fn accepts_all<U, C: Functor<U>, F: FnMut(C::In) -> U>(c: C, f: F) -> bool {
    forall|i: int| 0 <= i < c.elems().len() ==> call_requires(f, (#[trigger] c.elems()[i],))
}

/// `r` has the shape of `c`, and each element of `r` is what `f` returns on the
/// element of `c` at the same place.
pub open spec fn maps_to<U, C: Functor<U>, F: FnMut(C::In) -> U>(c: C, f: F, r: C::Out) -> bool {
    &&& c.same_shape(&r)
    &&& C::out_elems(&r).len() == c.elems().len()
    &&& forall|i: int|
        0 <= i < c.elems().len() ==> call_ensures(f, (c.elems()[i],), #[trigger] C::out_elems(&r)[i])
}

/// `f` is a pure function that computes `g`: whatever it returns on `x` is `g(x)`.
pub open spec fn computes<A, B, F: FnOnce(A) -> B>(f: F, g: spec_fn(A) -> B) -> bool {
    forall|x: A, y: B| call_ensures(f, (x,), y) ==> y == g(x)
}

/// Turns `f` into a function on whole containers, which maps each container
/// that it is given with `f`. The result may be called any number of times.
pub fn lift<A: Functor<B>, B, F: FnMut(A::In) -> B + Copy>(f: F) -> (g: impl FnMut(A) -> A::Out)
    ensures
        forall|a: A| accepts_all(a, f) ==> #[trigger] call_requires(g, (a,)),
        forall|a: A, r: A::Out| #[trigger] call_ensures(g, (a,), r) ==> maps_to(a, f, r),
{
    move |a: A| -> (r: A::Out)
        requires
            accepts_all(a, f),
        ensures
            maps_to(a, f, r),
        { a.fmap(f) }
}

impl<T, U> Functor<U> for Vec<T> {
    type In = T;
    type Out = Vec<U>;

    open spec fn elems(&self) -> Seq<T> {
        self@
    }

    open spec fn out_elems(o: &Vec<U>) -> Seq<U> {
        o@
    }

    open spec fn same_shape(&self, o: &Vec<U>) -> bool {
        o@.len() == self@.len()
    }

    fn fmap<F: FnMut(T) -> U>(self, f: F) -> (r: Vec<U>)
        ensures
            r@.len() == self@.len(),
            forall|i: int| 0 <= i < self@.len() ==> call_ensures(f, (self@[i],), #[trigger] r@[i]),
    {
        let ghost f0 = f;
        let ghost s0 = self@;
        let mut f = f;
        let mut out: Vec<U> = Vec::new();
        assert forall|i: int| 0 <= i < s0.len() implies call_requires(f0, (#[trigger] s0[i],)) by {
            assert(<Vec<T> as Functor<U>>::elems(&self)[i] == s0[i]);
        }
        for x in it: self.into_iter()
            invariant
                it.seq() == s0,
                out@.len() == it.index(),
                f == f0,
                forall|i: int| 0 <= i < s0.len() ==> call_requires(f0, (#[trigger] s0[i],)),
                forall|i: int| 0 <= i < out@.len() ==> call_ensures(f0, (s0[i],), #[trigger] out@[i]),
        {
            let y = f(x);
            out.push(y);
        }
        out
    }
}

impl<T, U> Functor<U> for Option<T> {
    type In = T;
    type Out = Option<U>;

    open spec fn elems(&self) -> Seq<T> {
        match *self {
            Some(t) => seq![t],
            None => Seq::empty(),
        }
    }

    open spec fn out_elems(o: &Option<U>) -> Seq<U> {
        match *o {
            Some(u) => seq![u],
            None => Seq::empty(),
        }
    }

    open spec fn same_shape(&self, o: &Option<U>) -> bool {
        self.is_some() == o.is_some()
    }

    fn fmap<F: FnMut(T) -> U>(self, f: F) -> (r: Option<U>)
        ensures
            match self {
                Some(x) => r is Some && call_ensures(f, (x,), r->Some_0),
                None => r is None,
            },
    {
        proof {
            if self is Some {
                assert(<Option<T> as Functor<U>>::elems(&self)[0] == self->Some_0);
            }
        }
        let r = self.map(f);
        proof {
            if r is Some {
                assert(Self::out_elems(&r)[0] == r->Some_0);
            }
        }
        r
    }
}

impl<T, U, E> Functor<U> for Result<T, E> {
    type In = T;
    type Out = Result<U, E>;

    open spec fn elems(&self) -> Seq<T> {
        match *self {
            Ok(t) => seq![t],
            Err(_) => Seq::empty(),
        }
    }

    open spec fn out_elems(o: &Result<U, E>) -> Seq<U> {
        match *o {
            Ok(u) => seq![u],
            Err(_) => Seq::empty(),
        }
    }

    /// A success stays a success; an error stays the same error.
    open spec fn same_shape(&self, o: &Result<U, E>) -> bool {
        match (*self, *o) {
            (Ok(_), Ok(_)) => true,
            (Err(e), Err(e2)) => e == e2,
            _ => false,
        }
    }

    fn fmap<F: FnMut(T) -> U>(self, f: F) -> (r: Result<U, E>)
        ensures
            match self {
                Ok(x) => r is Ok && call_ensures(f, (x,), r->Ok_0),
                Err(e) => r == Err::<U, E>(e),
            },
    {
        proof {
            if self is Ok {
                assert(<Result<T, E> as Functor<U>>::elems(&self)[0] == self->Ok_0);
            }
        }
        let mut f = f;
        match self {
            Ok(b) => Ok(f(b)),
            Err(e) => Err(e),
        }
    }
}

/// Mapping a sequence with the identity function changes nothing.
pub proof fn lemma_vec_fmap_identity<T, F: FnMut(T) -> T>(c: Vec<T>, f: F, r: Vec<T>)
    requires
        computes(f, |x: T| x),
        maps_to(c, f, r),
    ensures
        r@ == c@,
{
    assert(r@ =~= c@);
}

/// Mapping a sequence with `f` and then with `g` gives what mapping it once
/// with `h`, the composition of `g` after `f`, gives.
pub proof fn lemma_vec_fmap_composition<A, B, C, F: FnMut(A) -> B, G: FnMut(B) -> C, H: FnMut(A) -> C>(
    c: Vec<A>,
    f: F,
    g: G,
    h: H,
    sf: spec_fn(A) -> B,
    sg: spec_fn(B) -> C,
    fc: Vec<B>,
    gfc: Vec<C>,
    hc: Vec<C>,
)
    requires
        computes(f, sf),
        computes(g, sg),
        computes(h, |x: A| sg(sf(x))),
        maps_to(c, f, fc),
        maps_to(fc, g, gfc),
        maps_to(c, h, hc),
    ensures
        gfc@ == hc@,
{
    assert forall|i: int| 0 <= i < c@.len() implies gfc@[i] == hc@[i] by {
        assert(<Vec<A> as Functor<B>>::out_elems(&fc)[i] == fc@[i]);
        assert(<Vec<B> as Functor<C>>::out_elems(&gfc)[i] == gfc@[i]);
        assert(<Vec<A> as Functor<C>>::out_elems(&hc)[i] == hc@[i]);
    }
    assert(gfc@ =~= hc@);
}

/// Mapping an optional value with the identity function changes nothing.
pub proof fn lemma_option_fmap_identity<T, F: FnMut(T) -> T>(c: Option<T>, f: F, r: Option<T>)
    requires
        computes(f, |x: T| x),
        maps_to(c, f, r),
    ensures
        r == c,
{
    if c is Some {
        assert(<Option<T> as Functor<T>>::out_elems(&r)[0] == r->Some_0);
    }
}

/// Mapping an optional value with `f` and then with `g` gives what mapping it
/// once with `h`, the composition of `g` after `f`, gives.
pub proof fn lemma_option_fmap_composition<A, B, C, F: FnMut(A) -> B, G: FnMut(B) -> C, H: FnMut(A) -> C>(
    c: Option<A>,
    f: F,
    g: G,
    h: H,
    sf: spec_fn(A) -> B,
    sg: spec_fn(B) -> C,
    fc: Option<B>,
    gfc: Option<C>,
    hc: Option<C>,
)
    requires
        computes(f, sf),
        computes(g, sg),
        computes(h, |x: A| sg(sf(x))),
        maps_to(c, f, fc),
        maps_to(fc, g, gfc),
        maps_to(c, h, hc),
    ensures
        gfc == hc,
{
    if c is Some {
        assert(<Option<A> as Functor<B>>::out_elems(&fc)[0] == fc->Some_0);
        assert(<Option<B> as Functor<C>>::out_elems(&gfc)[0] == gfc->Some_0);
        assert(<Option<A> as Functor<C>>::out_elems(&hc)[0] == hc->Some_0);
    }
}

/// Mapping a fallible result with the identity function changes nothing.
pub proof fn lemma_result_fmap_identity<T, E, F: FnMut(T) -> T>(c: Result<T, E>, f: F, r: Result<T, E>)
    requires
        computes(f, |x: T| x),
        maps_to(c, f, r),
    ensures
        r == c,
{
    if c is Ok {
        assert(<Result<T, E> as Functor<T>>::out_elems(&r)[0] == r->Ok_0);
    }
}

/// Mapping a fallible result with `f` and then with `g` gives what mapping it
/// once with `h`, the composition of `g` after `f`, gives.
pub proof fn lemma_result_fmap_composition<A, B, C, E, F: FnMut(A) -> B, G: FnMut(B) -> C, H: FnMut(A) -> C>(
    c: Result<A, E>,
    f: F,
    g: G,
    h: H,
    sf: spec_fn(A) -> B,
    sg: spec_fn(B) -> C,
    fc: Result<B, E>,
    gfc: Result<C, E>,
    hc: Result<C, E>,
)
    requires
        computes(f, sf),
        computes(g, sg),
        computes(h, |x: A| sg(sf(x))),
        maps_to(c, f, fc),
        maps_to(fc, g, gfc),
        maps_to(c, h, hc),
    ensures
        gfc == hc,
{
    if c is Ok {
        assert(<Result<A, E> as Functor<B>>::out_elems(&fc)[0] == fc->Ok_0);
        assert(<Result<B, E> as Functor<C>>::out_elems(&gfc)[0] == gfc->Ok_0);
        assert(<Result<A, E> as Functor<C>>::out_elems(&hc)[0] == hc->Ok_0);
    }
}

} // verus!

use vstd::prelude::*;
use crate::functor::Functor;

verus! {

/// A functor whose values can be combined, element by element, with a
/// container of the same shape that holds functions `F`, each giving a `B`.
///
/// No operation puts a bare value into the container.
pub trait Apply<F, B>: Functor<B> {
    /// The container of the same shape that holds functions `F`.
    type Fns;

    /// The functions in `ff`, in order.
    spec fn fn_elems(ff: &Self::Fns) -> Seq<F>;

    /// How many elements of `self` meet a function of `ff`: the `i`-th
    /// element meets the `i`-th function.
    spec fn paired_len(&self, ff: &Self::Fns) -> nat;

    /// All of `r` but its elements: what `ap` makes of `self` and `ff` when
    /// they do not pair up.
    spec fn ap_shape(&self, ff: &Self::Fns, r: &Self::Out) -> bool;

    /// Each element that meets a function is an element of `self`, and each
    /// function that meets an element is a function of `ff`.
    proof fn lemma_paired_len_bounded(&self, ff: &Self::Fns)
        ensures
            self.paired_len(ff) <= self.elems().len(),
            self.paired_len(ff) <= Self::fn_elems(ff).len(),
    ;

    /// Calls each function of `ff` on the element of `self` that it meets, in
    /// order, and puts the results in a container of the same shape.
    fn ap(self, ff: Self::Fns) -> (r: Self::Out)
        where
            F: FnMut(<Self as Functor<B>>::In) -> B,
        requires
            forall|i: int|
                0 <= i < self.paired_len(&ff) ==> call_requires(
                    Self::fn_elems(&ff)[i],
                    (#[trigger] self.elems()[i],),
                ),
        ensures
            self.ap_shape(&ff, &r),
            Self::out_elems(&r).len() == self.paired_len(&ff),
            forall|i: int|
                0 <= i < self.paired_len(&ff) ==> call_ensures(
                    Self::fn_elems(&ff)[i],
                    (self.elems()[i],),
                    #[trigger] Self::out_elems(&r)[i],
                ),
    ;
}

impl<T, F, B> Apply<F, B> for Vec<T> {
    type Fns = Vec<F>;

    open spec fn fn_elems(ff: &Vec<F>) -> Seq<F> {
        ff@
    }

    /// The two sequences are zipped and cut to the shorter one.
    open spec fn paired_len(&self, ff: &Vec<F>) -> nat {
        if self@.len() <= ff@.len() {
            self@.len()
        } else {
            ff@.len()
        }
    }

    open spec fn ap_shape(&self, ff: &Vec<F>, r: &Vec<B>) -> bool {
        true
    }

    proof fn lemma_paired_len_bounded(&self, ff: &Vec<F>) {
    }

    fn ap(self, ff: Vec<F>) -> (r: Vec<B>)
        where
            F: FnMut(T) -> B,
        ensures
            r@.len() == if self@.len() <= ff@.len() { self@.len() } else { ff@.len() },
            forall|i: int| 0 <= i < r@.len() ==> call_ensures(ff@[i], (self@[i],), #[trigger] r@[i]),
    {
        let n: usize = if self.len() <= ff.len() { self.len() } else { ff.len() };
        let ghost xs0 = self@;
        let ghost fs0 = ff@;
        proof {
            assert forall|i: int| 0 <= i < n implies call_requires(fs0[i], (#[trigger] xs0[i],)) by {
                assert(<Vec<T> as Functor<B>>::elems(&self)[i] == xs0[i]);
            }
        }
        let mut xs = self;
        xs.truncate(n);
        let mut fs = reversed(ff);
        let mut out: Vec<B> = Vec::new();
        for x in it: xs.into_iter()
            invariant
                n <= fs0.len(),
                n <= xs0.len(),
                it.seq() == xs0.take(n as int),
                out@.len() == it.index(),
                fs@.len() + out@.len() == fs0.len(),
                forall|j: int| 0 <= j < fs@.len() ==> fs@[j] == fs0[fs0.len() - 1 - j],
                forall|i: int| 0 <= i < n ==> call_requires(fs0[i], (#[trigger] xs0[i],)),
                forall|i: int| 0 <= i < out@.len() ==> call_ensures(fs0[i], (xs0[i],), #[trigger] out@[i]),
        {
            let ghost k = out@.len() as int;
            let mut g = fs.pop().unwrap();
            assert(g == fs0[k]);
            let y = g(x);
            out.push(y);
        }
        out
    }
}

/// The elements of `v` in the opposite order.
fn reversed<T>(v: Vec<T>) -> (r: Vec<T>)
    ensures
        r@.len() == v@.len(),
        forall|j: int| 0 <= j < r@.len() ==> r@[j] == v@[v@.len() - 1 - j],
{
    let ghost v0 = v@;
    let mut src = v;
    let mut out: Vec<T> = Vec::new();
    while src.len() > 0
        invariant
            src@.len() + out@.len() == v0.len(),
            src@ == v0.take(src@.len() as int),
            forall|j: int| 0 <= j < out@.len() ==> out@[j] == v0[v0.len() - 1 - j],
        decreases src@.len(),
    {
        let x = src.pop().unwrap();
        out.push(x);
    }
    out
}

impl<T, F, B> Apply<F, B> for Option<T> {
    type Fns = Option<F>;

    open spec fn fn_elems(ff: &Option<F>) -> Seq<F> {
        match *ff {
            Some(g) => seq![g],
            None => Seq::empty(),
        }
    }

    open spec fn paired_len(&self, ff: &Option<F>) -> nat {
        if self is Some && ff is Some {
            1
        } else {
            0
        }
    }

    /// Without a function the result is absent, whatever `self` holds; with
    /// one, it is present when `self` is.
    open spec fn ap_shape(&self, ff: &Option<F>, r: &Option<B>) -> bool {
        r is Some <==> (self is Some && ff is Some)
    }

    proof fn lemma_paired_len_bounded(&self, ff: &Option<F>) {
    }

    fn ap(self, ff: Option<F>) -> (r: Option<B>)
        where
            F: FnMut(T) -> B,
        ensures
            match (self, ff) {
                (Some(x), Some(g)) => r is Some && call_ensures(g, (x,), r->Some_0),
                _ => r is None,
            },
    {
        match ff {
            None => None,
            Some(g) => {
                proof {
                    if self is Some {
                        assert(<Option<T> as Functor<B>>::elems(&self)[0] == self->Some_0);
                        assert(<Self as Apply<F, B>>::fn_elems(&ff)[0] == g);
                    }
                }
                let r = self.fmap(g);
                proof {
                    if r is Some {
                        assert(<Option<T> as Functor<B>>::out_elems(&r)[0] == r->Some_0);
                    }
                }
                r
            },
        }
    }
}

impl<T, E, F, B> Apply<F, B> for Result<T, E> {
    type Fns = Result<F, E>;

    open spec fn fn_elems(ff: &Result<F, E>) -> Seq<F> {
        match *ff {
            Ok(g) => seq![g],
            Err(_) => Seq::empty(),
        }
    }

    open spec fn paired_len(&self, ff: &Result<F, E>) -> nat {
        if self is Ok && ff is Ok {
            1
        } else {
            0
        }
    }

    /// An error in place of the function is the result, whatever `self`
    /// holds; with a function, an error of `self` is the result; else the
    /// result is a success.
    open spec fn ap_shape(&self, ff: &Result<F, E>, r: &Result<B, E>) -> bool {
        match (*ff, *self) {
            (Err(e), _) => *r == Err::<B, E>(e),
            (Ok(_), Err(e)) => *r == Err::<B, E>(e),
            (Ok(_), Ok(_)) => r is Ok,
        }
    }

    proof fn lemma_paired_len_bounded(&self, ff: &Result<F, E>) {
    }

    fn ap(self, ff: Result<F, E>) -> (r: Result<B, E>)
        where
            F: FnMut(T) -> B,
        ensures
            match (ff, self) {
                (Err(e), _) => r == Err::<B, E>(e),
                (Ok(_), Err(e)) => r == Err::<B, E>(e),
                (Ok(g), Ok(x)) => r is Ok && call_ensures(g, (x,), r->Ok_0),
            },
    {
        match ff {
            Err(e) => Err(e),
            Ok(g) => {
                proof {
                    if self is Ok {
                        assert(<Result<T, E> as Functor<B>>::elems(&self)[0] == self->Ok_0);
                        assert(<Self as Apply<F, B>>::fn_elems(&ff)[0] == g);
                    }
                }
                let r = self.fmap(g);
                proof {
                    if r is Ok {
                        assert(<Result<T, E> as Functor<B>>::out_elems(&r)[0] == r->Ok_0);
                    }
                }
                r
            },
        }
    }
}

} // verus!

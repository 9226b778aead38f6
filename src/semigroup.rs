use std::collections::HashSet;
use std::hash::Hash;
use vstd::prelude::*;
use vstd::std_specs::hash::obeys_key_model;

verus! {

/// A type with an associative way of combining two of its values into one.
///
/// Each implementation describes its values by a mathematical model and
/// `combine` by an operation `op` on models, and proves that `op` is
/// associative.
pub trait Semigroup: Sized {
    /// The mathematical value that a value of the type stands for.
    type Model;

    spec fn model(&self) -> Self::Model;

    /// What `combine` computes, on models.
    spec fn op(a: Self::Model, b: Self::Model) -> Self::Model;

    /// Holds when `combine` is described by `op`. It fails only for
    /// collections whose element type breaks the rules that hashing relies on.
    spec fn lawful() -> bool;

    proof fn lemma_op_associative(a: Self::Model, b: Self::Model, c: Self::Model)
        ensures
            Self::op(Self::op(a, b), c) == Self::op(a, Self::op(b, c)),
    ;

    /// Combines `self`, on the left, with `x`, on the right.
    fn combine(self, x: Self) -> (r: Self)
        ensures
            Self::lawful() ==> r.model() == Self::op(self.model(), x.model()),
    ;
}

/// `r` is what combining `a` with `b` gives.
pub open spec fn combined<S: Semigroup>(a: S, b: S, r: S) -> bool {
    r.model() == S::op(a.model(), b.model())
}

/// Combining is associative: combining `a` with `b` and the result with `c`
/// gives the same value as combining `a` with the combination of `b` and `c`.
pub proof fn lemma_combine_associative<S: Semigroup>(a: S, b: S, c: S, ab: S, ab_c: S, bc: S, a_bc: S)
    requires
        combined(a, b, ab),
        combined(ab, c, ab_c),
        combined(b, c, bc),
        combined(a, bc, a_bc),
    ensures
        ab_c.model() == a_bc.model(),
{
    S::lemma_op_associative(a.model(), b.model(), c.model());
}

impl Semigroup for () {
    type Model = ();

    open spec fn model(&self) -> () {
        ()
    }

    open spec fn op(a: (), b: ()) -> () {
        ()
    }

    open spec fn lawful() -> bool {
        true
    }

    proof fn lemma_op_associative(a: (), b: (), c: ()) {
    }

    fn combine(self, x: ()) -> (r: ()) {
    }
}

impl Semigroup for String {
    type Model = Seq<char>;

    open spec fn model(&self) -> Seq<char> {
        self@
    }

    open spec fn op(a: Seq<char>, b: Seq<char>) -> Seq<char> {
        a + b
    }

    open spec fn lawful() -> bool {
        true
    }

    proof fn lemma_op_associative(a: Seq<char>, b: Seq<char>, c: Seq<char>) {
        assert((a + b) + c =~= a + (b + c));
    }

    fn combine(self, x: String) -> (r: String) {
        let mut s = self;
        s.append(x.as_str());
        s
    }
}

impl<T> Semigroup for Vec<T> {
    type Model = Seq<T>;

    open spec fn model(&self) -> Seq<T> {
        self@
    }

    open spec fn op(a: Seq<T>, b: Seq<T>) -> Seq<T> {
        a + b
    }

    open spec fn lawful() -> bool {
        true
    }

    proof fn lemma_op_associative(a: Seq<T>, b: Seq<T>, c: Seq<T>) {
        assert((a + b) + c =~= a + (b + c));
    }

    fn combine(self, x: Vec<T>) -> (r: Vec<T>) {
        let mut a = self;
        let mut b = x;
        a.append(&mut b);
        a
    }
}

/// Relies on `Extend::extend` of `HashSet`: each item of `other` is inserted
/// into `set`, so that `set` ends as the union of the two.
#[verifier::external_body]
fn extend_set<T: Eq + Hash>(set: &mut HashSet<T>, other: HashSet<T>)
    ensures
        obeys_key_model::<T>() ==> final(set)@ == old(set)@.union(other@),
{
    set.extend(other);
}

impl<T: Eq + Hash> Semigroup for HashSet<T> {
    type Model = Set<T>;

    open spec fn model(&self) -> Set<T> {
        self@
    }

    open spec fn op(a: Set<T>, b: Set<T>) -> Set<T> {
        a.union(b)
    }

    open spec fn lawful() -> bool {
        obeys_key_model::<T>()
    }

    proof fn lemma_op_associative(a: Set<T>, b: Set<T>, c: Set<T>) {
        assert(a.union(b).union(c) =~= a.union(b.union(c)));
    }

    fn combine(self, x: HashSet<T>) -> (r: HashSet<T>) {
        let mut s = self;
        extend_set(&mut s, x);
        s
    }
}

/// The model of an optional value: the model of what it holds, if anything.
pub open spec fn option_model<T: Semigroup>(o: Option<T>) -> Option<T::Model> {
    match o {
        Some(t) => Some(t.model()),
        None => None,
    }
}

impl<T: Semigroup> Semigroup for Option<T> {
    type Model = Option<T::Model>;

    open spec fn model(&self) -> Option<T::Model> {
        option_model(*self)
    }

    /// An absent value is skipped; two present values are combined.
    open spec fn op(a: Option<T::Model>, b: Option<T::Model>) -> Option<T::Model> {
        match (a, b) {
            (None, None) => None,
            (Some(x), None) => Some(x),
            (None, Some(y)) => Some(y),
            (Some(x), Some(y)) => Some(T::op(x, y)),
        }
    }

    open spec fn lawful() -> bool {
        T::lawful()
    }

    proof fn lemma_op_associative(a: Option<T::Model>, b: Option<T::Model>, c: Option<T::Model>) {
        if a is Some && b is Some && c is Some {
            T::lemma_op_associative(a->Some_0, b->Some_0, c->Some_0);
        }
    }

    fn combine(self, x: Option<T>) -> (r: Option<T>)
        ensures
            self is None && x is None ==> r is None,
            self is Some && x is None ==> r == self,
            self is None && x is Some ==> r == x,
    {
        match (self, x) {
            (None, None) => None,
            (Some(a), None) => Some(a),
            (None, Some(b)) => Some(b),
            (Some(a), Some(b)) => Some(a.combine(b)),
        }
    }
}

/// The model of a fallible result: the model of its success value, or its error.
pub open spec fn result_model<T: Semigroup, E>(r: Result<T, E>) -> Result<T::Model, E> {
    match r {
        Ok(t) => Ok(t.model()),
        Err(e) => Err(e),
    }
}

impl<T: Semigroup, E> Semigroup for Result<T, E> {
    type Model = Result<T::Model, E>;

    open spec fn model(&self) -> Result<T::Model, E> {
        result_model(*self)
    }

    /// The error of the right operand wins; else the error of the left one;
    /// two successes are combined.
    open spec fn op(a: Result<T::Model, E>, b: Result<T::Model, E>) -> Result<T::Model, E> {
        match (a, b) {
            (_, Err(e)) => Err(e),
            (Err(e), Ok(_)) => Err(e),
            (Ok(x), Ok(y)) => Ok(T::op(x, y)),
        }
    }

    open spec fn lawful() -> bool {
        T::lawful()
    }

    proof fn lemma_op_associative(a: Result<T::Model, E>, b: Result<T::Model, E>, c: Result<T::Model, E>) {
        if a is Ok && b is Ok && c is Ok {
            T::lemma_op_associative(a->Ok_0, b->Ok_0, c->Ok_0);
        }
    }

    fn combine(self, x: Result<T, E>) -> (r: Result<T, E>)
        ensures
            x is Err ==> r == x,
            self is Err && x is Ok ==> r == self,
    {
        match (self, x) {
            (_, Err(e)) => Err(e),
            (Err(e), Ok(_)) => Err(e),
            (Ok(a), Ok(b)) => Ok(a.combine(b)),
        }
    }
}

impl Semigroup for i8 {
    type Model = i8;

    open spec fn model(&self) -> i8 {
        *self
    }

    /// Addition that wraps around on overflow.
    open spec fn op(a: i8, b: i8) -> i8 {
        a.wrapping_add(b)
    }

    open spec fn lawful() -> bool {
        true
    }

    proof fn lemma_op_associative(a: i8, b: i8, c: i8) {
    }

    fn combine(self, x: i8) -> (r: i8) {
        self.wrapping_add(x)
    }
}

impl Semigroup for i16 {
    type Model = i16;

    open spec fn model(&self) -> i16 {
        *self
    }

    /// Addition that wraps around on overflow.
    open spec fn op(a: i16, b: i16) -> i16 {
        a.wrapping_add(b)
    }

    open spec fn lawful() -> bool {
        true
    }

    proof fn lemma_op_associative(a: i16, b: i16, c: i16) {
    }

    fn combine(self, x: i16) -> (r: i16) {
        self.wrapping_add(x)
    }
}

impl Semigroup for i32 {
    type Model = i32;

    open spec fn model(&self) -> i32 {
        *self
    }

    /// Addition that wraps around on overflow.
    open spec fn op(a: i32, b: i32) -> i32 {
        a.wrapping_add(b)
    }

    open spec fn lawful() -> bool {
        true
    }

    proof fn lemma_op_associative(a: i32, b: i32, c: i32) {
    }

    fn combine(self, x: i32) -> (r: i32) {
        self.wrapping_add(x)
    }
}

impl Semigroup for i64 {
    type Model = i64;

    open spec fn model(&self) -> i64 {
        *self
    }

    /// Addition that wraps around on overflow.
    open spec fn op(a: i64, b: i64) -> i64 {
        a.wrapping_add(b)
    }

    open spec fn lawful() -> bool {
        true
    }

    proof fn lemma_op_associative(a: i64, b: i64, c: i64) {
    }

    fn combine(self, x: i64) -> (r: i64) {
        self.wrapping_add(x)
    }
}

impl Semigroup for isize {
    type Model = isize;

    open spec fn model(&self) -> isize {
        *self
    }

    /// Addition that wraps around on overflow.
    open spec fn op(a: isize, b: isize) -> isize {
        a.wrapping_add(b)
    }

    open spec fn lawful() -> bool {
        true
    }

    proof fn lemma_op_associative(a: isize, b: isize, c: isize) {
    }

    fn combine(self, x: isize) -> (r: isize) {
        self.wrapping_add(x)
    }
}

impl Semigroup for u8 {
    type Model = u8;

    open spec fn model(&self) -> u8 {
        *self
    }

    /// Addition that wraps around on overflow.
    open spec fn op(a: u8, b: u8) -> u8 {
        a.wrapping_add(b)
    }

    open spec fn lawful() -> bool {
        true
    }

    proof fn lemma_op_associative(a: u8, b: u8, c: u8) {
    }

    fn combine(self, x: u8) -> (r: u8) {
        self.wrapping_add(x)
    }
}

impl Semigroup for u16 {
    type Model = u16;

    open spec fn model(&self) -> u16 {
        *self
    }

    /// Addition that wraps around on overflow.
    open spec fn op(a: u16, b: u16) -> u16 {
        a.wrapping_add(b)
    }

    open spec fn lawful() -> bool {
        true
    }

    proof fn lemma_op_associative(a: u16, b: u16, c: u16) {
    }

    fn combine(self, x: u16) -> (r: u16) {
        self.wrapping_add(x)
    }
}

impl Semigroup for u32 {
    type Model = u32;

    open spec fn model(&self) -> u32 {
        *self
    }

    /// Addition that wraps around on overflow.
    open spec fn op(a: u32, b: u32) -> u32 {
        a.wrapping_add(b)
    }

    open spec fn lawful() -> bool {
        true
    }

    proof fn lemma_op_associative(a: u32, b: u32, c: u32) {
    }

    fn combine(self, x: u32) -> (r: u32) {
        self.wrapping_add(x)
    }
}

impl Semigroup for u64 {
    type Model = u64;

    open spec fn model(&self) -> u64 {
        *self
    }

    /// Addition that wraps around on overflow.
    open spec fn op(a: u64, b: u64) -> u64 {
        a.wrapping_add(b)
    }

    open spec fn lawful() -> bool {
        true
    }

    proof fn lemma_op_associative(a: u64, b: u64, c: u64) {
    }

    fn combine(self, x: u64) -> (r: u64) {
        self.wrapping_add(x)
    }
}

impl Semigroup for usize {
    type Model = usize;

    open spec fn model(&self) -> usize {
        *self
    }

    /// Addition that wraps around on overflow.
    open spec fn op(a: usize, b: usize) -> usize {
        a.wrapping_add(b)
    }

    open spec fn lawful() -> bool {
        true
    }

    proof fn lemma_op_associative(a: usize, b: usize, c: usize) {
    }

    fn combine(self, x: usize) -> (r: usize) {
        self.wrapping_add(x)
    }
}

} // verus!

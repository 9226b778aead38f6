use std::collections::HashSet;
use std::hash::Hash;
use vstd::prelude::*;
use crate::semigroup::Semigroup;

verus! {

/// A semigroup with an identity element for its combination.
pub trait Monoid: Semigroup {
    fn empty() -> Self;
}

/// Every semigroup with a default value is a monoid, whose identity is that
/// default value. Whether the default value is an identity for `combine` is
/// shown type by type below.
impl<T: Semigroup + Default> Monoid for T {
    fn empty() -> (r: T)
        ensures
            call_ensures(T::default, (), r),
    {
        T::default()
    }
}

/// `m` is a two-sided identity for the combination of `S`.
pub open spec fn is_identity<S: Semigroup>(m: S::Model) -> bool {
    forall|x: S::Model| #[trigger] S::op(m, x) == x && S::op(x, m) == x
}

/// The identity of the unit type is an identity for its combination.
pub proof fn lemma_unit_empty_identity(e: ())
    requires
        call_ensures(<() as Monoid>::empty, (), e),
    ensures
        is_identity::<()>(e.model()),
{
}

/// The empty string is an identity for concatenation.
pub proof fn lemma_string_empty_identity(e: String)
    requires
        call_ensures(<String as Monoid>::empty, (), e),
    ensures
        e@ == Seq::<char>::empty(),
        is_identity::<String>(e.model()),
{
    assert forall|x: Seq<char>| #[trigger] String::op(e.model(), x) == x && String::op(x, e.model()) == x by {
        assert(e@ + x =~= x);
        assert(x + e@ =~= x);
    }
}

/// The empty sequence is an identity for concatenation.
pub proof fn lemma_vec_empty_identity<T>(e: Vec<T>)
    requires
        call_ensures(<Vec<T> as Monoid>::empty, (), e),
    ensures
        e@ == Seq::<T>::empty(),
        is_identity::<Vec<T>>(e.model()),
{
    assert forall|x: Seq<T>| #[trigger] Vec::<T>::op(e.model(), x) == x && Vec::<T>::op(x, e.model()) == x by {
        assert(e@ + x =~= x);
        assert(x + e@ =~= x);
    }
}

/// The empty set is an identity for union.
pub proof fn lemma_hash_set_empty_identity<T: Eq + Hash>(e: HashSet<T>)
    requires
        call_ensures(<HashSet<T> as Monoid>::empty, (), e),
    ensures
        e@ == Set::<T>::empty(),
        is_identity::<HashSet<T>>(e.model()),
{
    assert forall|x: Set<T>| #[trigger] HashSet::<T>::op(e.model(), x) == x && HashSet::<T>::op(x, e.model()) == x by {
        assert(e@.union(x) =~= x);
        assert(x.union(e@) =~= x);
    }
}

/// The absent value is an identity for the combination of optional values.
pub proof fn lemma_option_empty_identity<T: Semigroup>(e: Option<T>)
    requires
        call_ensures(<Option<T> as Monoid>::empty, (), e),
    ensures
        e is None,
        is_identity::<Option<T>>(e.model()),
{
}

/// Zero is an identity for wrapping addition on `i8`.
pub proof fn lemma_i8_empty_identity(e: i8)
    requires
        call_ensures(<i8 as Monoid>::empty, (), e),
    ensures
        e == 0,
        is_identity::<i8>(e.model()),
{
}

/// Zero is an identity for wrapping addition on `i16`.
pub proof fn lemma_i16_empty_identity(e: i16)
    requires
        call_ensures(<i16 as Monoid>::empty, (), e),
    ensures
        e == 0,
        is_identity::<i16>(e.model()),
{
}

/// Zero is an identity for wrapping addition on `i32`.
pub proof fn lemma_i32_empty_identity(e: i32)
    requires
        call_ensures(<i32 as Monoid>::empty, (), e),
    ensures
        e == 0,
        is_identity::<i32>(e.model()),
{
}

/// Zero is an identity for wrapping addition on `i64`.
pub proof fn lemma_i64_empty_identity(e: i64)
    requires
        call_ensures(<i64 as Monoid>::empty, (), e),
    ensures
        e == 0,
        is_identity::<i64>(e.model()),
{
}

/// Zero is an identity for wrapping addition on `isize`.
pub proof fn lemma_isize_empty_identity(e: isize)
    requires
        call_ensures(<isize as Monoid>::empty, (), e),
    ensures
        e == 0,
        is_identity::<isize>(e.model()),
{
}

/// Zero is an identity for wrapping addition on `u8`.
pub proof fn lemma_u8_empty_identity(e: u8)
    requires
        call_ensures(<u8 as Monoid>::empty, (), e),
    ensures
        e == 0,
        is_identity::<u8>(e.model()),
{
}

/// Zero is an identity for wrapping addition on `u16`.
pub proof fn lemma_u16_empty_identity(e: u16)
    requires
        call_ensures(<u16 as Monoid>::empty, (), e),
    ensures
        e == 0,
        is_identity::<u16>(e.model()),
{
}

/// Zero is an identity for wrapping addition on `u32`.
pub proof fn lemma_u32_empty_identity(e: u32)
    requires
        call_ensures(<u32 as Monoid>::empty, (), e),
    ensures
        e == 0,
        is_identity::<u32>(e.model()),
{
}

/// Zero is an identity for wrapping addition on `u64`.
pub proof fn lemma_u64_empty_identity(e: u64)
    requires
        call_ensures(<u64 as Monoid>::empty, (), e),
    ensures
        e == 0,
        is_identity::<u64>(e.model()),
{
}

/// Zero is an identity for wrapping addition on `usize`.
pub proof fn lemma_usize_empty_identity(e: usize)
    requires
        call_ensures(<usize as Monoid>::empty, (), e),
    ensures
        e == 0,
        is_identity::<usize>(e.model()),
{
}

} // verus!

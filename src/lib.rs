//! Combinable values (semigroups and monoids), containers whose elements can
//! be mapped (functors), and containers that can be applied element by element
//! to containers of functions, for sequences, optional values and fallible
//! results.

pub mod apply;
pub mod functor;
pub mod monoid;
pub mod semigroup;

pub use apply::Apply;
pub use functor::{lift, Functor};
pub use monoid::Monoid;
pub use semigroup::Semigroup;

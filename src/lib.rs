//! Scope functions: run a closure against a value inline, without a temporary binding.
//!
//! Every operation calls its closure exactly once. The contracts say so through the
//! closure's own specification: `closure.ensures(args, out)` holds of the one call made,
//! and the value returned is either that call's output or the receiver itself.
use vstd::prelude::*;

pub mod apply;
pub mod laws;
pub mod run;

pub use apply::Apply;
pub use run::Run;

verus! {

/// `closure` accepts every exclusive borrow whose current value is `v`.
pub open spec fn accepts_borrow_of<R, T, F: FnOnce(&mut R) -> T>(closure: F, v: R) -> bool {
    forall|m: &mut R| *m == v ==> #[trigger] closure.requires((m,))
}

/// Calls `closure` and returns its result.
pub fn run<T>(closure: impl FnOnce() -> T) -> (r: T)
    requires
        closure.requires(()),
    ensures
        closure.ensures((), r),
{
    closure()
}

/// Calls `closure` and hands back the `Result` it produced, success or failure alike.
pub fn try_run<T, E>(closure: impl FnOnce() -> Result<T, E>) -> (r: Result<T, E>)
    requires
        closure.requires(()),
    ensures
        closure.ensures((), r),
{
    closure()
}

/// Calls `closure` with `receiver` and returns its result.
pub fn with<R, T>(receiver: &R, closure: impl FnOnce(&R) -> T) -> (r: T)
    requires
        closure.requires((receiver,)),
    ensures
        closure.ensures((receiver,), r),
{
    closure(receiver)
}

/// Calls `closure` with an exclusive borrow of `receiver` and returns its result; what the
/// closure leaves in the borrow is what `receiver` holds afterwards.
pub fn with_mut<R, T>(receiver: &mut R, closure: impl FnOnce(&mut R) -> T) -> (r: T)
    requires
        accepts_borrow_of(closure, *old(receiver)),
    ensures
        exists|m: &mut R|
            *m == *old(receiver) && *final(m) == *final(receiver) && #[trigger] closure.ensures(
                (m,),
                r,
            ),
{
    closure(receiver)
}

/// Calls `closure` with `receiver` and hands back the `Result` it produced unchanged.
pub fn try_with<R, T, E>(receiver: &R, closure: impl FnOnce(&R) -> Result<T, E>) -> (r: Result<T, E>)
    requires
        closure.requires((receiver,)),
    ensures
        closure.ensures((receiver,), r),
{
    closure(receiver)
}

/// Calls `closure` with an exclusive borrow of `receiver` and hands back the `Result` it
/// produced unchanged.
pub fn try_with_mut<R, T, E>(receiver: &mut R, closure: impl FnOnce(&mut R) -> Result<T, E>) -> (r:
    Result<T, E>)
    requires
        accepts_borrow_of(closure, *old(receiver)),
    ensures
        exists|m: &mut R|
            *m == *old(receiver) && *final(m) == *final(receiver) && #[trigger] closure.ensures(
                (m,),
                r,
            ),
{
    closure(receiver)
}

} // verus!

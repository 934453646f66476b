//! Scope functions that hand `Self` to a closure and return what the closure computed.
use vstd::prelude::*;
use crate::accepts_borrow_of;

verus! {

/// Transform-and-discard: each method passes `self` to a closure and returns the closure's
/// output in place of `self`.
pub trait Run: Sized {
    /// Calls `closure` with `self` and returns its result.
    fn run<T>(&self, closure: impl FnOnce(&Self) -> T) -> (r: T)
        requires
            closure.requires((self,)),
        ensures
            closure.ensures((self,), r),
    ;

    /// Calls `closure` with an exclusive borrow of `self` and returns its result.
    fn run_mut<T>(&mut self, closure: impl FnOnce(&mut Self) -> T) -> (r: T)
        requires
            accepts_borrow_of(closure, *old(self)),
        ensures
            exists|m: &mut Self|
                *m == *old(self) && *final(m) == *final(self) && #[trigger] closure.ensures(
                    (m,),
                    r,
                ),
    ;

    /// Calls `closure` with `self` and hands back the `Result` it produced unchanged.
    fn try_run<T, E>(&self, closure: impl FnOnce(&Self) -> Result<T, E>) -> (r: Result<T, E>)
        requires
            closure.requires((self,)),
        ensures
            closure.ensures((self,), r),
    ;

    /// Calls `closure` with an exclusive borrow of `self` and hands back the `Result` it
    /// produced unchanged.
    fn try_run_mut<T, E>(&mut self, closure: impl FnOnce(&mut Self) -> Result<T, E>) -> (r:
        Result<T, E>)
        requires
            accepts_borrow_of(closure, *old(self)),
        ensures
            exists|m: &mut Self|
                *m == *old(self) && *final(m) == *final(self) && #[trigger] closure.ensures(
                    (m,),
                    r,
                ),
    ;
}

impl<A: Sized> Run for A {
    fn run<T>(&self, closure: impl FnOnce(&Self) -> T) -> (r: T) {
        closure(self)
    }

    fn run_mut<T>(&mut self, closure: impl FnOnce(&mut Self) -> T) -> (r: T) {
        closure(self)
    }

    fn try_run<T, E>(&self, closure: impl FnOnce(&Self) -> Result<T, E>) -> (r: Result<T, E>) {
        closure(self)
    }

    fn try_run_mut<T, E>(&mut self, closure: impl FnOnce(&mut Self) -> Result<T, E>) -> (r:
        Result<T, E>) {
        closure(self)
    }
}

} // verus!

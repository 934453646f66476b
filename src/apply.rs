//! Scope functions that hand `Self` to a closure for its effect and then return `Self`.
use vstd::prelude::*;
use crate::accepts_borrow_of;

verus! {

/// Effect-then-return, by reference: each method passes `self` to a closure, discards the
/// closure's output, and returns a reference to `self`.
pub trait Apply: Sized {
    /// Calls `closure` with `self` and returns `self`.
    fn apply(&self, closure: impl FnOnce(&Self)) -> (r: &Self)
        requires
            closure.requires((self,)),
        ensures
            *r == *self,
            closure.ensures((self,), ()),
    ;

    /// Calls `closure` with an exclusive borrow of `self` and returns `self` as the closure
    /// left it.
    fn apply_mut(&mut self, closure: impl FnOnce(&mut Self)) -> (r: &mut Self)
        requires
            accepts_borrow_of(closure, *old(self)),
        ensures
            exists|m: &mut Self|
                *m == *old(self) && *final(m) == *r && #[trigger] closure.ensures((m,), ()),
            *final(self) == *final(r),
    ;

    /// Calls `closure` with `self`; returns `self` when the closure succeeds, and the
    /// closure's error when it fails.
    fn try_apply<E>(&self, closure: impl FnOnce(&Self) -> Result<(), E>) -> (r: Result<&Self, E>)
        requires
            closure.requires((self,)),
        ensures
            r is Ok ==> *r->Ok_0 == *self && closure.ensures((self,), Ok(())),
            r is Err ==> closure.ensures((self,), Err(r->Err_0)),
    ;

    /// Calls `closure` with an exclusive borrow of `self`; returns `self` as the closure
    /// left it when the closure succeeds, and the closure's error when it fails.
    fn try_apply_mut<E>(&mut self, closure: impl FnOnce(&mut Self) -> Result<(), E>) -> (r:
        Result<&mut Self, E>)
        requires
            accepts_borrow_of(closure, *old(self)),
        ensures
            r is Ok ==> *final(self) == *final(r->Ok_0) && exists|m: &mut Self|
                *m == *old(self) && *final(m) == *r->Ok_0 && #[trigger] closure.ensures(
                    (m,),
                    Ok(()),
                ),
            r is Err ==> exists|m: &mut Self|
                *m == *old(self) && *final(m) == *final(self) && #[trigger] closure.ensures(
                    (m,),
                    Err(r->Err_0),
                ),
    ;
}

impl<A: Sized> Apply for A {
    fn apply(&self, closure: impl FnOnce(&Self)) -> (r: &Self) {
        closure(self);
        self
    }

    fn apply_mut(&mut self, closure: impl FnOnce(&mut Self)) -> (r: &mut Self) {
        closure(self);
        self
    }

    fn try_apply<E>(&self, closure: impl FnOnce(&Self) -> Result<(), E>) -> (r: Result<&Self, E>) {
        let outcome = closure(self);
        match outcome {
            Ok(u) => {
                assert(u == ());
                Ok(self)
            },
            Err(e) => Err(e),
        }
    }

    fn try_apply_mut<E>(&mut self, closure: impl FnOnce(&mut Self) -> Result<(), E>) -> (r:
        Result<&mut Self, E>) {
        let outcome = closure(self);
        match outcome {
            Ok(u) => {
                assert(u == ());
                Ok(self)
            },
            Err(e) => {
                let r: Result<&mut Self, E> = Err(e);
                assert(outcome == Err::<(), E>(r->Err_0));
                r
            },
        }
    }
}

} // verus!

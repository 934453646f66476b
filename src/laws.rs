//! Laws that tie what each operation returns to what its closure does. Each states, over the
//! postconditions that the operations themselves promise, a fact that callers rely on.
use vstd::prelude::*;

verus! {

/// A transforming call returns exactly the transformed value: when every output that `f` may
/// give for `v` is `t`, the result of `run` / `with` on `v` is `t`.
pub proof fn lemma_run_returns_transform<A, T, F: FnOnce(&A) -> T>(v: &A, f: F, t: T, r: T)
    requires
        forall|o: T| #[trigger] f.ensures((v,), o) ==> o == t,
        f.ensures((v,), r),
    ensures
        r == t,
{
}

/// Running the identity hands the receiver back: when `f` can only return `*v`, the result
/// of `run` / `with` on `v` is `*v`.
pub proof fn lemma_run_identity<A, F: FnOnce(&A) -> A>(v: &A, f: F, r: A)
    requires
        forall|o: A| #[trigger] f.ensures((v,), o) ==> o == *v,
        f.ensures((v,), r),
    ensures
        r == *v,
{
}

/// A failure is passed through unchanged by `try_run`, `try_with` and `Run::try_run`: when
/// `f` can only fail with `e`, the result is `Err(e)` and carries no success payload.
pub proof fn lemma_failure_passes_through<A, T, E, F: FnOnce(&A) -> Result<T, E>>(
    v: &A,
    f: F,
    e: E,
    r: Result<T, E>,
)
    requires
        forall|o: Result<T, E>| #[trigger] f.ensures((v,), o) ==> o == Err::<T, E>(e),
        f.ensures((v,), r),
    ensures
        r == Err::<T, E>(e),
        !(r is Ok),
{
}

/// A success is passed through unchanged by `try_run`, `try_with` and `Run::try_run`: when
/// `f` can only succeed with `p`, the result is `Ok(p)`.
pub proof fn lemma_success_passes_through<A, T, E, F: FnOnce(&A) -> Result<T, E>>(
    v: &A,
    f: F,
    p: T,
    r: Result<T, E>,
)
    requires
        forall|o: Result<T, E>| #[trigger] f.ensures((v,), o) ==> o == Ok::<T, E>(p),
        f.ensures((v,), r),
    ensures
        r == Ok::<T, E>(p),
{
}

/// The same for the exclusive-borrow variants `try_with_mut` and `Run::try_run_mut`: when
/// every call of `f` on any borrow fails with `e`, the result is `Err(e)`; when every call
/// succeeds with `p`, it is `Ok(p)`.
pub proof fn lemma_borrow_outcome_passes_through<A, T, E, F: FnOnce(&mut A) -> Result<T, E>>(
    v: A,
    after: A,
    f: F,
    o: Result<T, E>,
    r: Result<T, E>,
)
    requires
        forall|m: &mut A, x: Result<T, E>| #[trigger] f.ensures((m,), x) ==> x == o,
        exists|m: &mut A| *m == v && *final(m) == after && #[trigger] f.ensures((m,), r),
    ensures
        r == o,
{
}

/// `Apply::try_apply` hands back the closure's failure `e` unchanged when `f` can only fail
/// with `e`, and the receiver itself (not the closure's unit payload) when `f` can only
/// succeed.
pub proof fn lemma_try_apply_outcome<A, E, F: FnOnce(&A) -> Result<(), E>>(
    v: &A,
    f: F,
    o: Result<(), E>,
    r: Result<&A, E>,
)
    requires
        forall|x: Result<(), E>| #[trigger] f.ensures((v,), x) ==> x == o,
        r is Ok ==> *r->Ok_0 == *v && f.ensures((v,), Ok(())),
        r is Err ==> f.ensures((v,), Err(r->Err_0)),
    ensures
        o is Err ==> r is Err && r->Err_0 == o->Err_0,
        o is Ok ==> r is Ok && *r->Ok_0 == *v,
{
}

/// `Apply::try_apply_mut` hands back the closure's failure `e` unchanged when `f` can only
/// fail with `e`, and the receiver as the closure left it when `f` can only succeed.
pub proof fn lemma_try_apply_mut_outcome<A, E, F: FnOnce(&mut A) -> Result<(), E>>(
    v: A,
    after: A,
    f: F,
    o: Result<(), E>,
    r: Result<A, E>,
)
    requires
        forall|m: &mut A, x: Result<(), E>| #[trigger] f.ensures((m,), x) ==> x == o,
        r is Ok ==> exists|m: &mut A|
            *m == v && *final(m) == r->Ok_0 && #[trigger] f.ensures((m,), Ok(())),
        r is Err ==> exists|m: &mut A|
            *m == v && *final(m) == after && #[trigger] f.ensures((m,), Err(r->Err_0)),
    ensures
        o is Err ==> r is Err && r->Err_0 == o->Err_0,
        o is Ok ==> r is Ok,
{
}

} // verus!

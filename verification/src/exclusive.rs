//! Transformation of exclusive references.
use vstd::prelude::*;

verus! {

/// Lends the target of `r` to `f` for one call. Returns `Ok` with the value
/// that `f` produced, or, where `f` declined, `Err` with `r`.
///
/// The loan ends when `f` returns, so nothing that `f` returns or keeps can
/// borrow from the target. Either way the target keeps what `f` wrote to it.
/// After a decline the reference that comes back is the only one to the
/// target, and what the caller writes through it is what the target's owner
/// finds.
pub fn try_transform_mut<'a, T, B, F>(r: &'a mut T, f: F) -> (res: Result<B, &'a mut T>) where
    F: FnOnce(&mut T) -> Option<B>,

    requires
        forall|m: &mut T| *m == *old(r) ==> #[trigger] f.requires((m,)),
    ensures
        match res {
            Ok(v) => exists|m: &mut T|
                *m == *old(r) && *final(m) == *final(r) && f.ensures((m,), Some(v)),
            Err(back) => *final(back) == *final(r) && exists|m: &mut T|
                *m == *old(r) && *final(m) == *back && f.ensures((m,), None),
        },
{
    match f(&mut *r) {
        Some(v) => Ok(v),
        None => Err(r),
    }
}

/// A closure that can only decline a target holding `before` leaves the
/// caller with an exclusive reference to that target: the transformation ends
/// in `Err`, what comes back holds what the closure left in the target, and
/// what it holds last is `last`, the value that the target's owner finds.
pub proof fn lemma_declined_comes_back_mut<T, B, F: FnOnce(&mut T) -> Option<B>>(
    f: F,
    before: T,
    last: T,
    res: Result<B, &mut T>,
)
    requires
        match res {
            Ok(v) => exists|m: &mut T|
                *m == before && *final(m) == last && f.ensures((m,), Some(v)),
            Err(back) => *final(back) == last && exists|m: &mut T|
                *m == before && *final(m) == *back && f.ensures((m,), None),
        },
        forall|m: &mut T, out: Option<B>|
            *m == before && f.ensures((m,), out) ==> out is None,
    ensures
        res is Err,
        *final(res->Err_0) == last,
        exists|m: &mut T|
            *m == before && *final(m) == *res->Err_0 && f.ensures((m,), None),
{
}

/// A closure that, lent a target holding `before`, can only leave `after` in
/// it and return `Some(v)` makes the transformation end in `Ok(v)`, and
/// `after` is the value that the target's owner finds.
pub proof fn lemma_produced_is_returned_mut<T, B, F: FnOnce(&mut T) -> Option<B>>(
    f: F,
    before: T,
    after: T,
    v: B,
    last: T,
    res: Result<B, &mut T>,
)
    requires
        match res {
            Ok(w) => exists|m: &mut T|
                *m == before && *final(m) == last && f.ensures((m,), Some(w)),
            Err(back) => *final(back) == last && exists|m: &mut T|
                *m == before && *final(m) == *back && f.ensures((m,), None),
        },
        forall|m: &mut T, out: Option<B>|
            *m == before && f.ensures((m,), out) ==> out == Some(v) && *final(m) == after,
    ensures
        res is Ok,
        res->Ok_0 == v,
        last == after,
{
}

} // verus!

//! Transformation of shared references.
use vstd::prelude::*;

verus! {

/// Whether `res` is a way for the transformation of `r` by `f` to end: with a
/// value that `f` may return for `r`, or, where `f` may decline `r`, with `r`.
pub open spec fn transformed<R, B, F: FnOnce(R) -> Option<B>>(r: R, f: F, res: Result<B, R>) -> bool {
    match res {
        Ok(v) => f.ensures((r,), Some(v)),
        Err(back) => back == r && f.ensures((r,), None),
    }
}

/// A reference that a closure may turn into something else.
pub trait TryTransform: Sized {
    /// Hands `self` to `f`. Returns `Ok` with the value that `f` produced, or,
    /// where `f` declined, `Err` with `self`.
    fn try_transform<B, F>(self, f: F) -> (res: Result<B, Self>) where F: FnOnce(Self) -> Option<B>
        requires
            f.requires((self,)),
        ensures
            transformed(self, f, res),
    ;
}

impl<'a, T> TryTransform for &'a T {
    fn try_transform<B, F>(self, f: F) -> (res: Result<B, Self>) where F: FnOnce(Self) -> Option<B> {
        match f(self) {
            Some(v) => Ok(v),
            None => Err(self),
        }
    }
}

/// A closure that can only decline `r` leaves the caller with `r`: the
/// transformation ends in `Err`, and what comes back reads as `r` does.
pub proof fn lemma_declined_comes_back<'a, T, B, F: FnOnce(&'a T) -> Option<B>>(
    r: &'a T,
    f: F,
    res: Result<B, &'a T>,
)
    requires
        transformed(r, f, res),
        forall|out: Option<B>| f.ensures((r,), out) ==> out is None,
    ensures
        res == Err::<B, &'a T>(r),
        *res->Err_0 == *r,
{
}

/// A closure that can only return `Some(v)` for `r` makes the transformation
/// end in `Ok(v)`: the caller gets the value and no reference.
pub proof fn lemma_produced_is_returned<'a, T, B, F: FnOnce(&'a T) -> Option<B>>(
    r: &'a T,
    f: F,
    v: B,
    res: Result<B, &'a T>,
)
    requires
        transformed(r, f, res),
        forall|out: Option<B>| f.ensures((r,), out) ==> out == Some(v),
    ensures
        res == Ok::<B, &'a T>(v),
{
}

} // verus!

//! The run loop's unit of work.
//!
//! A run loop drives *work*. A handler returns whatever its loop's
//! [`WorkConverter`] accepts; [`IntoRunLoopWork`] turns that into the converter's
//! own representation.
use vstd::prelude::*;

verus! {

/// Selects how a handler's return becomes a run loop's work, and what that work
/// *is*. Nothing is mandated about how work is driven.
pub trait WorkConverter<'a> {
    /// This loop's unit of work, valid for `'a`.
    type Erased;

    /// Whether a unit of work does nothing.
    spec fn is_empty(work: Self::Erased) -> bool;

    /// Work that does nothing.
    fn empty() -> (work: Self::Erased)
        ensures
            Self::is_empty(work),
    ;
}

/// A [`WorkConverter`] whose work is driven by running it to completion.
pub trait FutureWorkConverter<'a>: WorkConverter<'a> {
    /// What the run loop drives.
    type Driven;

    /// View this converter's work as what the run loop drives.
    fn into_future(work: Self::Erased) -> Self::Driven;
}

/// Turn a handler's return value into a run loop's work.
pub trait IntoRunLoopWork<'a, C: WorkConverter<'a>>: Sized {
    /// Whether `erased` is this work in the converter's representation.
    spec fn erases_to(self, erased: C::Erased) -> bool;

    /// Convert into the converter's erased work.
    fn into_erased(self) -> (erased: C::Erased)
        ensures
            self.erases_to(erased),
    ;
}

/// Erase `work` through converter `C`.
pub fn into_work<'a, C: WorkConverter<'a>, W: IntoRunLoopWork<'a, C>>(work: W) -> (erased:
    C::Erased)
    ensures
        call_ensures(W::into_erased, (work,), erased),
        work.erases_to(erased),
{
    work.into_erased()
}

/// Work that does nothing, for *any* converter.
///
/// The no-op an unimplemented lifecycle hook returns.
#[derive(Clone, Copy, Debug)]
pub struct NoWork;

impl<'a, C: WorkConverter<'a>> IntoRunLoopWork<'a, C> for NoWork {
    open spec fn erases_to(self, erased: C::Erased) -> bool {
        call_ensures(C::empty, (), erased)
    }

    fn into_erased(self) -> (erased: C::Erased) {
        C::empty()
    }
}

/// Erasing [`NoWork`] gives the converter's empty work, whatever the converter.
pub proof fn no_work_is_empty_work<'a, C: WorkConverter<'a>>(erased: C::Erased)
    requires
        call_ensures(into_work::<'a, C, NoWork>, (NoWork,), erased),
    ensures
        call_ensures(C::empty, (), erased),
        C::is_empty(erased),
{
}

/// Erasing work gives what the work itself makes of the converter, and nothing
/// else.
pub proof fn into_work_is_into_erased<'a, C: WorkConverter<'a>, W: IntoRunLoopWork<'a, C>>(
    work: W,
    erased: C::Erased,
)
    requires
        call_ensures(into_work::<'a, C, W>, (work,), erased),
    ensures
        call_ensures(W::into_erased, (work,), erased),
        work.erases_to(erased),
{
}

/// The converter of the standard run loops: work is a future `F`, or nothing.
#[derive(Debug)]
pub struct SendFutureConverter<F> {
    future: core::marker::PhantomData<F>,
}

impl<'a, F> WorkConverter<'a> for SendFutureConverter<F> {
    type Erased = Option<F>;

    open spec fn is_empty(work: Option<F>) -> bool {
        work is None
    }

    fn empty() -> (work: Option<F>) {
        None
    }
}

impl<'a, F> FutureWorkConverter<'a> for SendFutureConverter<F> {
    type Driven = Option<F>;

    fn into_future(work: Option<F>) -> (driven: Option<F>)
        ensures
            driven == work,
    {
        work
    }
}

/// A handler's work that is a future.
#[derive(Debug)]
pub struct FutureWork<F> {
    pub future: F,
}

impl<'a, F> IntoRunLoopWork<'a, SendFutureConverter<F>> for FutureWork<F> {
    open spec fn erases_to(self, erased: Option<F>) -> bool {
        erased == Some(self.future)
    }

    fn into_erased(self) -> (erased: Option<F>) {
        Some(self.future)
    }
}

/// A handler's future is what the run loop drives, and a handler without work gives it
/// nothing to drive.
pub proof fn futures_are_driven_as_they_are<'a, F>(
    future: F,
    erased: Option<F>,
    driven: Option<F>,
    nothing: Option<F>,
    idle: Option<F>,
)
    requires
        call_ensures(
            into_work::<'a, SendFutureConverter<F>, FutureWork<F>>,
            (FutureWork { future },),
            erased,
        ),
        call_ensures(SendFutureConverter::<F>::into_future, (erased,), driven),
        call_ensures(into_work::<'a, SendFutureConverter<F>, NoWork>, (NoWork,), nothing),
        call_ensures(SendFutureConverter::<F>::into_future, (nothing,), idle),
    ensures
        driven == Some(future),
        idle is None,
{
}

} // verus!

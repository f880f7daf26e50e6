//! References that do not keep what they point to alive.
use std::sync::Arc;
use vstd::prelude::*;

verus! {

/// A reference to shared data that does not keep it alive, held as a
/// [`std::sync::Weak`].
#[verifier::external_body]
#[verifier::reject_recursive_types(T)]
#[derive(Debug)]
pub struct WeakRef<T> {
    inner: std::sync::Weak<T>,
}

/// Calls [`Arc::downgrade`]: a reference to the same data, which does not keep it
/// alive.
#[verifier::external_body]
fn arc_downgrade<T>(strong: &Arc<T>) -> (weak: WeakRef<T>) {
    WeakRef { inner: Arc::downgrade(strong) }
}

/// Calls [`std::sync::Weak::new`]: a reference to nothing.
#[verifier::external_body]
fn weak_new<T>() -> (weak: WeakRef<T>) {
    WeakRef { inner: std::sync::Weak::new() }
}

/// Calls [`std::sync::Weak::upgrade`]: the data that the reference was made from, if
/// something else still keeps it alive; never anything for a reference to nothing.
#[verifier::external_body]
fn weak_upgrade<T>(weak: &WeakRef<T>) -> (strong: Option<Arc<T>>)
    ensures
        call_ensures(weak_new::<T>, (), *weak) ==> strong is None,
        strong matches Some(found) ==> forall|from: Arc<T>| #[trigger]
            call_ensures(arc_downgrade::<T>, (&from,), *weak) ==> found == from,
{
    weak.inner.upgrade()
}

/// Calls the `clone` of [`std::sync::Weak`]: a reference to the same data.
#[verifier::external_body]
fn weak_clone<T>(weak: &WeakRef<T>) -> (cloned: WeakRef<T>)
    ensures
        cloned == *weak,
{
    WeakRef { inner: weak.inner.clone() }
}

impl<T> WeakRef<T> {
    /// Whether the reference was made from `strong`, by [`Arc::downgrade`].
    pub closed spec fn refers_to(self, strong: Arc<T>) -> bool {
        call_ensures(arc_downgrade::<T>, (&strong,), self)
    }

    /// Whether the reference was made by [`std::sync::Weak::new`].
    pub closed spec fn is_dangling(self) -> bool {
        call_ensures(weak_new::<T>, (), self)
    }

    /// Whether `strong` is what [`std::sync::Weak::upgrade`] returned, called on the
    /// reference. Whether that is the data depends on what else keeps it alive.
    pub closed spec fn upgrade_returned(self, strong: Option<Arc<T>>) -> bool {
        call_ensures(weak_upgrade::<T>, (&self,), strong)
    }

    /// A reference to the given data.
    pub fn of(strong: &Arc<T>) -> (weak: Self)
        ensures
            weak.refers_to(*strong),
    {
        arc_downgrade(strong)
    }

    /// A reference to nothing.
    pub fn dangling() -> (weak: Self)
        ensures
            weak.is_dangling(),
    {
        weak_new()
    }

    /// What the reference was made from, if something else still keeps it alive.
    pub fn upgrade(&self) -> (strong: Option<Arc<T>>)
        ensures
            self.upgrade_returned(strong),
            self.is_dangling() ==> strong is None,
            strong matches Some(found) ==> forall|from: Arc<T>| #[trigger]
                self.refers_to(from) ==> found == from,
    {
        weak_upgrade(self)
    }
}

impl<T> Clone for WeakRef<T> {
    fn clone(&self) -> (cloned: Self)
        ensures
            cloned == *self,
    {
        weak_clone(self)
    }
}

/// A reference is made by [`Arc::downgrade`] of the very data, or by
/// [`std::sync::Weak::new`], and upgraded by [`std::sync::Weak::upgrade`]; what comes
/// back is what it was made from, and never anything for a reference to nothing.
proof fn references_are_upgraded_to_what_they_were_made_from<T>(
    strong: Arc<T>,
    weak: WeakRef<T>,
    upgraded: Option<Arc<T>>,
    dangling: WeakRef<T>,
    nothing: Option<Arc<T>>,
)
    requires
        call_ensures(WeakRef::<T>::of, (&strong,), weak),
        call_ensures(WeakRef::<T>::upgrade, (&weak,), upgraded),
        call_ensures(WeakRef::<T>::dangling, (), dangling),
        call_ensures(WeakRef::<T>::upgrade, (&dangling,), nothing),
    ensures
        call_ensures(arc_downgrade::<T>, (&strong,), weak),
        call_ensures(weak_upgrade::<T>, (&weak,), upgraded),
        upgraded matches Some(found) ==> found == strong,
        call_ensures(weak_new::<T>, (), dangling),
        nothing is None,
{
}

} // verus!

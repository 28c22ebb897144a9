//! The standard library's locks and weak references, as far as this crate
//! uses them. Nothing here is proved: each item says what is taken on trust.

use std::sync::{Arc, LockResult, Mutex, MutexGuard, PoisonError, Weak};
use vstd::prelude::*;

verus! {

/// `std::sync::Mutex`. What a mutex holds is not part of its value: between two
/// acquisitions any holder may have replaced it.
#[verifier::external_type_specification]
#[verifier::external_body]
#[verifier::reject_recursive_types(T)]
pub struct ExMutex<T: ?Sized>(Mutex<T>);

/// `std::sync::MutexGuard`, the proof of an acquired mutex.
#[verifier::external_type_specification]
#[verifier::external_body]
#[verifier::reject_recursive_types(T)]
pub struct ExMutexGuard<'a, T: ?Sized + 'a>(MutexGuard<'a, T>);

/// `std::sync::PoisonError`, returned in place of the guard once a holder of
/// the mutex has panicked.
#[verifier::external_type_specification]
#[verifier::external_body]
#[verifier::reject_recursive_types(T)]
pub struct ExPoisonError<T>(PoisonError<T>);

/// `Mutex::new`: an unlocked mutex around `value`. Nothing is claimed of the
/// result.
pub assume_specification<T>[ Mutex::<T>::new ](value: T) -> (mutex: Mutex<T>)
;

/// `Mutex::lock`: blocks until the mutex is acquired and returns its guard, or
/// the poison error. Nothing is claimed of the result. The call does not
/// return when the calling thread already holds this mutex, and no contract
/// can speak of that. So every caller in this crate drops the guard before it
/// calls anything that it was handed: a callback, a `clone`, or a value's
/// destructor.
pub assume_specification<'a, T: ?Sized>[ Mutex::<T>::lock ](mutex: &'a Mutex<T>) -> (result:
    LockResult<MutexGuard<'a, T>>)
;

/// `DerefMut::deref_mut` of a guard: exclusive access to what the mutex
/// holds. Nothing is claimed of the value found there.
#[verifier::external_body]
pub(crate) fn guard_mut<'a, 'b, T>(guard: &'a mut MutexGuard<'b, T>) -> (held: &'a mut T) {
    std::ops::DerefMut::deref_mut(guard)
}

/// `Deref::deref` of a guard: shared access to what the mutex holds. Nothing
/// is claimed of the value found there.
#[verifier::external_body]
pub(crate) fn guard_ref<'a, 'b, T>(guard: &'a MutexGuard<'b, T>) -> (held: &'a T) {
    std::ops::Deref::deref(guard)
}

/// A reference that does not keep its target alive: `std::sync::Weak`, whose
/// allocator parameter keeps it from being declared directly.
#[verifier::external_body]
#[verifier::reject_recursive_types(T)]
pub struct WeakRef<T> {
    inner: Weak<T>,
}

impl<T> WeakRef<T> {
    /// `Arc::downgrade`: a weak reference to the allocation of `target`.
    /// Nothing is claimed of the result.
    #[verifier::external_body]
    pub(crate) fn downgrade(target: &Arc<T>) -> (weak: Self) {
        WeakRef { inner: Arc::downgrade(target) }
    }

    /// `Weak::upgrade`: the target, if a strong reference to it still
    /// exists. Whether one does depends on the rest of the program. What is
    /// claimed: a target that is found is the allocation the reference was
    /// taken from, so it equals every handle that `downgrade` made this
    /// reference of.
    #[verifier::external_body]
    pub(crate) fn upgrade(&self) -> (target: Option<Arc<T>>)
        ensures
            forall|source: Arc<T>| #[trigger]
                call_ensures(WeakRef::<T>::downgrade, (&source,), *self) ==> (target matches Some(
                    found,
                ) ==> found == source),
    {
        self.inner.upgrade()
    }
}

} // verus!

//! Callbacks a subscriber keeps and runs for every value it receives.

use std::sync::Arc;
use vstd::prelude::*;

verus! {

/// A callback on values of type `T`, in a form that can be kept behind a
/// pointer without naming the callback's own type.
pub trait Callback<T> {
    /// The callback may be run on `value`.
    spec fn callable(&self, value: &T) -> bool;

    /// What is known once a run of the callback on `value` has returned.
    spec fn completed(&self, value: &T) -> bool;

    /// Runs the callback on `value`.
    fn call(&self, value: &T)
        requires
            self.callable(value),
        ensures
            self.completed(value),
    ;
}

impl<T, F: Fn(&T)> Callback<T> for F {
    open spec fn callable(&self, value: &T) -> bool {
        call_requires(*self, (value,))
    }

    open spec fn completed(&self, value: &T) -> bool {
        call_ensures(*self, (value,), ())
    }

    fn call(&self, value: &T) {
        self(value)
    }
}

/// A registered callback, which may be invoked with every value. Copies of a
/// sink share the callback.
#[verifier::reject_recursive_types(T)]
pub struct Sink<T> {
    callback: Arc<Box<dyn Callback<T>>>,
}

impl<T> Sink<T> {
    #[verifier::type_invariant]
    spec fn total(&self) -> bool {
        forall|value: T| #[trigger] self.callback.callable(&value)
    }

    /// The postcondition of the callback that the sink holds, for the
    /// argument `value`. It is learned from an invocation that has returned,
    /// and says what the callback's own `ensures` says, no more.
    pub closed spec fn completed(&self, value: T) -> bool {
        self.callback.completed(&value)
    }

    /// The sink holds the callback `f`: an invocation of the sink
    /// establishes what a call of `f` establishes.
    pub open spec fn wraps<F: Fn(&T)>(&self, f: F) -> bool {
        forall|value: T| #[trigger] self.completed(value) == call_ensures(f, (&value,), ())
    }

    /// Makes a sink of the callback `f`, which must accept every value.
    pub fn new<F>(f: F) -> (sink: Self) where F: Fn(&T) + 'static
        requires
            forall|value: T| call_requires(f, (&value,)),
        ensures
            sink.wraps(f),
    {
        let callback: Box<dyn Callback<T>> = Box::new(f);
        Sink { callback: Arc::new(callback) }
    }

    /// Another handle on the same callback.
    pub fn share(&self) -> (other: Self)
        ensures
            other == *self,
    {
        proof {
            use_type_invariant(self);
        }
        Sink { callback: Arc::clone(&self.callback) }
    }

    /// Runs the callback once, on `value`.
    pub fn invoke(&self, value: &T)
        ensures
            self.completed(*value),
    {
        proof {
            use_type_invariant(self);
        }
        self.callback.call(value)
    }
}

} // verus!

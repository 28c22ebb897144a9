//! An observable cell: the latest value that went through a publisher.

use crate::publisher::{Publish, Publisher, PublisherState};
use crate::sink::Sink;
use crate::subscriber::{Subscriber, SubscriberState};
use crate::subscription::Subscription;
use crate::sync::{guard_mut, guard_ref};
use std::sync::{Arc, Mutex};
use vstd::prelude::*;

verus! {

/// A publisher, a subscriber attached to it, and a cache that the
/// subscriber's first sink overwrites with every value it receives.
///
/// The cache lives behind a lock of its own, so no contract of the handle can
/// speak of what it holds: what a write leaves in it and what a read takes
/// from it are the contracts of `overwrite` and `snapshot`. The lock is held
/// only while the cached value is exchanged or shared, never while a value is
/// cloned or dropped.
#[verifier::reject_recursive_types(T)]
pub struct Property<T> where T: Clone, T: 'static {
    publisher: Arc<Publisher<T>>,
    subscriber: Arc<Subscriber<T>>,
    value: Arc<Mutex<Arc<T>>>,
}

impl<T> Property<T> where T: Clone, T: 'static {
    /// The publisher that `accept` feeds.
    pub closed spec fn spec_publisher(&self) -> Arc<Publisher<T>> {
        self.publisher
    }

    /// The subscriber that updates the cache.
    pub closed spec fn spec_subscriber(&self) -> Arc<Subscriber<T>> {
        self.subscriber
    }

    /// The lock of the cache that `value` reads was made around `value`.
    pub closed spec fn made_around(&self, value: T) -> bool {
        call_ensures(Mutex::<Arc<T>>::new, (Arc::new(value),), *self.value)
    }

    /// A call of `accept` that was handed `v` on this property has returned.
    /// It carries what `accept` ensures, no more.
    pub open spec fn accepted(&self, v: T) -> bool {
        call_ensures(Property::<T>::accept, (self, &v), ())
    }

    /// A call of `store` that was handed `v` and the cache that `value` reads
    /// has returned: unless the cache's lock was poisoned, the cache was
    /// overwritten with a clone of `v`, as `overwrite` does.
    pub closed spec fn stored(&self, v: T) -> bool {
        call_ensures(Property::<T>::store, (&self.value, &v), ())
    }

    /// Puts `fresh` into the cache `slot` and hands back what the cache
    /// held.
    pub fn overwrite(slot: &mut Arc<T>, fresh: Arc<T>) -> (stale: Arc<T>)
        ensures
            *final(slot) == fresh,
            stale == *old(slot),
    {
        let mut other = fresh;
        std::mem::swap(slot, &mut other);
        other
    }

    /// A clone of the cached value `cached`.
    pub fn snapshot(cached: &T) -> (value: T)
        ensures
            cloned(*cached, value),
    {
        cached.clone()
    }

    /// Writes a clone of `v` into the cache behind `cell`; does nothing if
    /// the lock is poisoned. The clone is made before the lock is taken, and
    /// what the cache held is dropped after the lock is let go.
    fn store(cell: &Arc<Mutex<Arc<T>>>, v: &T) {
        let fresh = Arc::new(v.clone());
        let stale = match cell.lock() {
            Ok(mut guard) => Some(Self::overwrite(guard_mut(&mut guard), fresh)),
            Err(_) => None,
        };
    }

    /// A property that holds `value`. Its subscriber is made with one sink,
    /// and every invocation of that sink with `v` stores `v` in the cache.
    /// Its publisher is made with one link, which is made for that
    /// subscriber, and is then told of its handle.
    pub fn new(value: T) -> (property: Arc<Self>)
        ensures
            property.made_around(value),
            exists|sinks: SubscriberState<T>|
                {
                    &&& sinks@.len() == 1
                    &&& forall|v: T| #[trigger] sinks@[0].completed(v) ==> property.stored(v)
                    &&& property.spec_subscriber().made_around(sinks)
                },
            exists|links: PublisherState<T>|
                {
                    &&& links@.len() == 1
                    &&& Subscription::made_for(links@[0], property.spec_subscriber())
                    &&& property.spec_subscriber().notified(links@[0])
                    &&& property.spec_publisher().made_around(links)
                },
            Publisher::told(property.spec_publisher()),
    {
        let ghost first = value;
        let value = Arc::new(Mutex::new(Arc::new(value)));
        assert(call_ensures(Mutex::<Arc<T>>::new, (Arc::new(first),), *value));
        let value_ref = Arc::clone(&value);
        let write = (move |v: &T| -> (done: ())
            ensures
                call_ensures(Property::<T>::store, (&value_ref, v), ()),
            { Self::store(&value_ref, v) });
        let mut sinks = SubscriberState::new();
        sinks.register(Sink::new(write));
        let ghost registered = sinks;
        let subscriber = Subscriber::around(sinks);
        let mut links = PublisherState::new();
        links.receive_subscriber(&subscriber);
        let ghost attached = links;
        let publisher = Publisher::around(links);
        let property = Self { publisher, subscriber, value };
        assert forall|v: T| #[trigger] registered@[0].completed(v) implies property.stored(v) by {
            assert(registered@[0].completed(v) == call_ensures(write, (&v,), ()));
        }
        assert(registered@.len() == 1 && property.spec_subscriber().made_around(registered));
        assert(attached@.len() == 1 && Subscription::made_for(
            attached@[0],
            property.spec_subscriber(),
        ) && property.spec_subscriber().notified(attached@[0])
            && property.spec_publisher().made_around(attached));
        Arc::new(property)
    }

    /// The publisher to attach observers to.
    pub fn publisher(&self) -> (publisher: &Arc<Publisher<T>>)
        ensures
            *publisher == self.spec_publisher(),
    {
        &self.publisher
    }

    /// The subscriber to feed the property through.
    pub fn subscriber(&self) -> (subscriber: &Arc<Subscriber<T>>)
        ensures
            *subscriber == self.spec_subscriber(),
    {
        &self.subscriber
    }

    /// Sends `v` through the property's publisher: to the observers and to
    /// the cache, in the order of their attachment.
    pub fn accept(&self, v: &T)
        ensures
            self.spec_publisher().sent(*v),
    {
        self.publisher.send_value(v)
    }

    /// `found` is what a call of `shared` on this property has returned:
    /// the value that the cache held, or nothing with a poisoned lock.
    pub closed spec fn read(&self, found: Option<Arc<T>>) -> bool {
        call_ensures(Property::<T>::shared, (self,), found)
    }

    /// The value that the cache holds, shared while the lock is held;
    /// nothing with a poisoned lock.
    fn shared(&self) -> (found: Option<Arc<T>>) {
        match self.value.lock() {
            Ok(guard) => Some(Arc::clone(guard_ref(&guard))),
            Err(_) => None,
        }
    }

    /// A clone of the cached value, made after the lock is let go; `None`
    /// if and only if the cache's lock is poisoned.
    pub fn value(&self) -> (value: Option<T>)
        ensures
            exists|found: Option<Arc<T>>|
                {
                    &&& self.read(found)
                    &&& match found {
                        Some(cached) => value matches Some(x) && cloned(*cached, x),
                        None => value.is_none(),
                    }
                },
    {
        let found = self.shared();
        let ghost seen = found;
        let value = match found {
            Some(cached) => Some(Self::snapshot(&cached)),
            None => None,
        };
        assert(self.read(seen));
        value
    }
}

} // verus!

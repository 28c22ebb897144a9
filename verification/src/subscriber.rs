//! The consuming end of a stream: a shared handle and the list of sinks
//! behind its lock.

use crate::demand::Demand;
use crate::publisher::{Publish, Publisher};
use crate::sink::Sink;
use crate::subscription::Subscription;
use crate::sync::{guard_mut, guard_ref};
use std::sync::{Arc, Mutex};
use vstd::prelude::*;

verus! {

/// The capability to consume values of one type.
pub trait Subscribe {
    type Input;

    /// Tells the consumer of the link that a publisher has made for it.
    fn receive_subscription(&self, subscription: Arc<Subscription<Self::Input>>);

    /// Hands `v` to the consumer, which answers with the demand it has left.
    fn receive_value(&self, v: &Self::Input) -> Demand;
}

/// The sinks of one subscriber, in the order of their registration.
///
/// Its model is the sequence of sinks.
#[verifier::reject_recursive_types(T)]
pub struct SubscriberState<T> {
    sinks: Vec<Sink<T>>,
}

impl<T> View for SubscriberState<T> {
    type V = Seq<Sink<T>>;

    closed spec fn view(&self) -> Seq<Sink<T>> {
        self.sinks@
    }
}

impl<T> SubscriberState<T> {
    /// For every sink of `sinks`, an invocation with `v` has returned.
    pub open spec fn ran(sinks: Seq<Sink<T>>, v: T) -> bool {
        forall|i: int| 0 <= i < sinks.len() ==> (#[trigger] sinks[i]).completed(v)
    }

    /// A subscriber state without sinks.
    pub fn new() -> (state: Self)
        ensures
            state@ == Seq::<Sink<T>>::empty(),
    {
        Self { sinks: Vec::new() }
    }

    /// The number of sinks.
    pub fn len(&self) -> (len: usize)
        ensures
            len == self@.len(),
    {
        self.sinks.len()
    }

    /// Takes note of a new link. The link is not kept: the sinks stay as
    /// they are.
    pub fn receive_subscription(&mut self, subscription: Arc<Subscription<T>>)
        ensures
            final(self)@ == old(self)@,
    {
    }

    /// Invokes every sink with `v`, in the order of registration, and asks
    /// for more without limit. The sinks stay as they are.
    pub fn receive_value(&mut self, v: &T) -> (demand: Demand)
        ensures
            final(self)@ == old(self)@,
            Self::ran(old(self)@, *v),
            demand@ == None::<nat>,
    {
        let mut i: usize = 0;
        while i < self.sinks.len()
            invariant
                0 <= i <= self.sinks@.len(),
                self.sinks@ == old(self).sinks@,
                forall|j: int| 0 <= j < i ==> (#[trigger] self.sinks@[j]).completed(*v),
            decreases self.sinks@.len() - i,
        {
            self.sinks[i].invoke(v);
            i += 1;
        }
        Demand::unlimited()
    }

    /// Appends `sink` to the sinks.
    pub fn register(&mut self, sink: Sink<T>)
        ensures
            final(self)@ == old(self)@.push(sink),
    {
        self.sinks.push(sink);
    }

    /// Registers `f` as the last sink.
    pub fn sink<F>(&mut self, f: F) where F: Fn(&T) + 'static
        requires
            forall|v: T| call_requires(f, (&v,)),
        ensures
            final(self)@.len() == old(self)@.len() + 1,
            final(self)@.drop_last() == old(self)@,
            final(self)@.last().wraps(f),
    {
        let sink = Sink::new(f);
        self.register(sink);
        assert(self.sinks@.drop_last() == old(self).sinks@);
    }

    /// A state with the same sinks in the same order, each sharing its
    /// callback with the sink it was copied from.
    pub fn snapshot(&self) -> (copy: Self)
        ensures
            copy@ == self@,
    {
        let mut sinks: Vec<Sink<T>> = Vec::new();
        let mut i: usize = 0;
        while i < self.sinks.len()
            invariant
                0 <= i <= self.sinks@.len(),
                sinks@ == self.sinks@.take(i as int),
            decreases self.sinks@.len() - i,
        {
            sinks.push(self.sinks[i].share());
            i += 1;
            assert(self.sinks@.take(i as int) == self.sinks@.take(i - 1).push(
                self.sinks@[i - 1],
            ));
        }
        assert(self.sinks@.take(i as int) == self.sinks@);
        Self { sinks }
    }
}

/// An addressable consumer: callers register sinks with it, publishers hand
/// it values.
///
/// The sinks live behind the handle's lock, so no contract of a handle can
/// speak of them: what each operation does to them is the contract of the
/// operation of the same name on [`SubscriberState`]. The handle holds its
/// lock only while it reads or changes the list of sinks, never while a sink
/// runs. An operation whose lock is poisoned does nothing.
#[verifier::reject_recursive_types(T)]
pub struct Subscriber<T> {
    state: Mutex<SubscriberState<T>>,
}

impl<T> Subscriber<T> {
    /// `demand` is the answer that `receive_value` has given on this
    /// subscriber for `v`. It carries what `receive_value` ensures, no more.
    pub open spec fn received(&self, v: T, demand: Demand) -> bool {
        call_ensures(<Subscriber<T> as Subscribe>::receive_value, (self, &v), demand)
    }

    /// A call of `receive_subscription` that told this subscriber of
    /// `subscription` has returned. It carries nothing else.
    pub open spec fn notified(&self, subscription: Arc<Subscription<T>>) -> bool {
        call_ensures(<Subscriber<T> as Subscribe>::receive_subscription, (self, subscription), ())
    }

    /// A call of `register` that handed `sink` to this subscriber has
    /// returned. It carries nothing else.
    pub open spec fn registered(&self, sink: Sink<T>) -> bool {
        call_ensures(Subscriber::<T>::register, (self, sink), ())
    }

    /// `mapped` is what a call of `f` on `v` has returned, or can return.
    pub open spec fn transforms<F: Fn(&T) -> S, S>(f: &F, v: T, mapped: S) -> bool {
        call_ensures(*f, (&v,), mapped)
    }

    /// The subscriber's lock was made around `state`.
    pub closed spec fn made_around(&self, state: SubscriberState<T>) -> bool {
        call_ensures(Mutex::<SubscriberState<T>>::new, (state,), self.state)
    }

    /// The subscriber's lock was made around a state without sinks.
    pub open spec fn made_empty(&self) -> bool {
        exists|state: SubscriberState<T>|
            state@ == Seq::<Sink<T>>::empty() && self.made_around(state)
    }

    /// `copied` is what a call of `copied` on this subscriber has returned: a
    /// copy of the state found behind the lock, or nothing with a poisoned
    /// lock.
    pub closed spec fn read(&self, copied: Option<SubscriberState<T>>) -> bool {
        call_ensures(Subscriber::<T>::copied, (self,), copied)
    }

    /// A copy of the state behind the lock, as `SubscriberState::snapshot`
    /// makes it; nothing with a poisoned lock.
    fn copied(&self) -> (copied: Option<SubscriberState<T>>) {
        match self.state.lock() {
            Ok(guard) => Some(guard_ref(&guard).snapshot()),
            Err(_) => None,
        }
    }

    /// A subscriber whose lock is made around `state`.
    pub fn around(state: SubscriberState<T>) -> (subscriber: Arc<Self>)
        ensures
            subscriber.made_around(state),
    {
        Arc::new(Self { state: Mutex::new(state) })
    }

    /// A subscriber without sinks.
    pub fn new() -> (subscriber: Arc<Self>)
        ensures
            subscriber.made_empty(),
    {
        let state = SubscriberState::new();
        let ghost first = state;
        let subscriber = Self::around(state);
        assert(subscriber.made_around(first));
        subscriber
    }

    /// Hands `sink` to the state behind the lock, which appends it to the
    /// sinks.
    pub fn register(&self, sink: Sink<T>) {
        if let Ok(mut guard) = self.state.lock() {
            guard_mut(&mut guard).register(sink);
        }
    }

    /// Registers `f`, to be invoked with every value received from now on,
    /// after the sinks registered before it.
    pub fn sink<F>(&self, f: F) where F: Fn(&T) + 'static
        requires
            forall|v: T| call_requires(f, (&v,)),
        ensures
            exists|sink: Sink<T>| self.registered(sink) && sink.wraps(f),
    {
        let sink = Sink::new(f);
        let ghost handed = sink;
        self.register(sink);
        assert(self.registered(handed) && handed.wraps(f));
    }

    /// What the sink of `bind` does with a value `v`: it sends `v` itself
    /// through `publisher`.
    pub fn forward(publisher: &Arc<Publisher<T>>, v: &T)
        ensures
            publisher.sent(*v),
    {
        publisher.send_value(v)
    }

    /// What the sink of `map` does with a value `v`: it sends what `f`
    /// returns for `v` through `publisher`.
    pub fn forward_mapped<F, S>(f: &F, publisher: &Arc<Publisher<S>>, v: &T) where F: Fn(&T) -> S
        requires
            call_requires(*f, (v,)),
        ensures
            exists|mapped: S| Self::transforms(f, *v, mapped) && publisher.sent(mapped),
    {
        let mapped = f(v);
        publisher.send_value(&mapped);
        assert(Self::transforms(f, *v, mapped) && publisher.sent(mapped));
    }

    /// A new subscriber that receives `f(v)` for every value `v` that this
    /// one receives. The new subscriber starts without sinks and is attached
    /// to a fresh publisher, the relay; this subscriber is handed one sink,
    /// and every invocation of that sink with `v` sends what `f` returns for
    /// `v` through the relay. The sink holds the new subscriber, so the new
    /// subscriber lives at least as long as this one, whether or not the
    /// caller keeps the handle.
    pub fn map<F, S>(&self, f: F) -> (mapped: Arc<Subscriber<S>>) where
        F: Fn(&T) -> S + 'static,
        T: 'static,
        S: 'static,

        requires
            forall|v: T| call_requires(f, (&v,)),
        ensures
            mapped.made_empty(),
            exists|relay: Arc<Publisher<S>>, sink: Sink<T>|
                {
                    &&& relay.attached(mapped)
                    &&& self.registered(sink)
                    &&& forall|v: T| #[trigger]
                        sink.completed(v) ==> exists|m: S|
                            Self::transforms(&f, v, m) && relay.sent(m)
                },
    {
        let subscriber = Subscriber::new();
        let publisher = Publisher::new();
        publisher.receive_subscriber(&subscriber);
        let ghost relay = publisher;
        let kept = Arc::clone(&subscriber);
        let forward = (move |v: &T| -> (done: ())
            ensures
                exists|m: S| Self::transforms(&f, *v, m) && publisher.sent(m),
            {
                let _target = &kept;
                Self::forward_mapped(&f, &publisher, v)
            });
        let sink = Sink::new(forward);
        let ghost handed = sink;
        self.register(sink);
        assert(relay.attached(subscriber) && self.registered(handed));
        subscriber
    }

    /// Forwards every value that this subscriber receives from now on,
    /// unchanged, into `publisher`: this subscriber is handed one sink, and
    /// every invocation of that sink with `v` sends `v` itself through
    /// `publisher`. Delivery is synchronous: where `publisher` delivers to
    /// this subscriber again, each value goes round for as long as the sinks
    /// on the way pass it on.
    pub fn bind(self: &Arc<Self>, publisher: &Arc<Publisher<T>>) where T: 'static
        ensures
            exists|sink: Sink<T>|
                {
                    &&& self.registered(sink)
                    &&& forall|v: T| #[trigger] sink.completed(v) ==> publisher.sent(v)
                },
    {
        let target = Arc::clone(publisher);
        let forward = (move |v: &T| -> (done: ())
            ensures
                target.sent(*v),
            { Self::forward(&target, v) });
        let sink = Sink::new(forward);
        let ghost handed = sink;
        self.register(sink);
        assert(self.registered(handed));
    }
}

impl<T> Subscribe for Subscriber<T> {
    type Input = T;

    fn receive_subscription(&self, subscription: Arc<Subscription<T>>) {
        if let Ok(mut guard) = self.state.lock() {
            guard_mut(&mut guard).receive_subscription(subscription);
        }
    }

    /// Copies the sinks while it holds the lock, lets the lock go and
    /// invokes the copies with `v`, as `SubscriberState::receive_value` does;
    /// the answer is an unlimited demand. With a poisoned lock no sink runs
    /// and the answer is an empty demand.
    fn receive_value(&self, v: &T) -> (demand: Demand)
        ensures
            exists|copied: Option<SubscriberState<T>>|
                {
                    &&& self.read(copied)
                    &&& match copied {
                        Some(sinks) => SubscriberState::ran(sinks@, *v) && demand@ == None::<nat>,
                        None => demand@ == Some(0nat),
                    }
                },
            demand@ == None::<nat> || demand@ == Some(0nat),
    {
        let copied = self.copied();
        let ghost found = copied;
        let demand = match copied {
            Some(mut sinks) => sinks.receive_value(v),
            None => Demand::nothing(),
        };
        assert(self.read(found));
        demand
    }
}

} // verus!

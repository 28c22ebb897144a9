//! The link between one publisher and one subscriber.

use crate::demand::Demand;
use crate::subscriber::{Subscribe, Subscriber};
use crate::sync::{guard_ref, WeakRef};
use std::sync::{Arc, Mutex};
use vstd::prelude::*;

verus! {

/// What a link holds: the demand left on it, and a reference to its
/// subscriber that does not keep the subscriber alive.
#[verifier::reject_recursive_types(T)]
pub struct SubscriptionState<T> {
    demand: Demand,
    subscriber: WeakRef<Subscriber<T>>,
}

impl<T> SubscriptionState<T> {
    /// The demand left on the link.
    pub closed spec fn demand(&self) -> Demand {
        self.demand
    }

    /// The link's reference was taken from the handle `subscriber`.
    pub closed spec fn links(&self, subscriber: Arc<Subscriber<T>>) -> bool {
        call_ensures(WeakRef::<Subscriber<T>>::downgrade, (&subscriber,), self.subscriber)
    }

    /// A look for the subscriber at the end of the link has come back with
    /// `target`: the subscriber if it is still alive, nothing if it is gone.
    pub closed spec fn found(&self, target: Option<Arc<Subscriber<T>>>) -> bool {
        &&& call_ensures(WeakRef::<Subscriber<T>>::upgrade, (&self.subscriber,), target)
        &&& forall|subscriber: Arc<Subscriber<T>>| #[trigger]
            self.links(subscriber) ==> (target matches Some(alive) ==> alive == subscriber)
    }

    /// `demand` is the answer that `deliver` has given for `target` and `v`.
    /// It carries what `deliver` ensures, no more.
    pub open spec fn delivered(target: Option<Arc<Subscriber<T>>>, v: T, demand: Demand) -> bool {
        call_ensures(SubscriptionState::<T>::deliver, (target, &v), demand)
    }

    /// A subscriber that is found at the end of a link is the one the link
    /// was made for.
    pub proof fn lemma_found_is_linked(
        &self,
        target: Option<Arc<Subscriber<T>>>,
        subscriber: Arc<Subscriber<T>>,
    )
        requires
            self.found(target),
            self.links(subscriber),
        ensures
            target matches Some(alive) ==> alive == subscriber,
    {
    }

    /// A link to `subscriber`, with unlimited demand.
    pub fn new(subscriber: &Arc<Subscriber<T>>) -> (state: Self)
        ensures
            state.demand()@ == None::<nat>,
            state.links(*subscriber),
    {
        Self { demand: Demand::unlimited(), subscriber: WeakRef::downgrade(subscriber) }
    }

    /// Looks for the subscriber at the end of the link.
    pub fn target(&self) -> (target: Option<Arc<Subscriber<T>>>)
        ensures
            self.found(target),
    {
        self.subscriber.upgrade()
    }

    /// Hands `v` to the subscriber found at the end of the link: `target` is
    /// the subscriber if it is still alive. A subscriber that is gone is
    /// answered for with an empty demand; a live one receives `v` and answers
    /// for itself.
    pub fn deliver(target: Option<Arc<Subscriber<T>>>, v: &T) -> (demand: Demand)
        ensures
            match target {
                Some(subscriber) => subscriber.received(*v, demand),
                None => demand@ == Some(0nat),
            },
            demand@ == None::<nat> || demand@ == Some(0nat),
    {
        match target {
            Some(subscriber) => subscriber.receive_value(v),
            None => Demand::nothing(),
        }
    }

    /// Looks for the subscriber and hands `v` to what is found, as `deliver`
    /// does. The link itself stays as it is.
    pub fn receive_value(&mut self, v: &T) -> (demand: Demand)
        ensures
            *final(self) == *old(self),
            exists|target: Option<Arc<Subscriber<T>>>|
                old(self).found(target) && Self::delivered(target, *v, demand),
    {
        let target = self.target();
        let ghost seen = target;
        let demand = Self::deliver(target, v);
        assert(old(self).found(seen) && Self::delivered(seen, *v, demand));
        demand
    }
}

/// The live link between one publisher and one subscriber.
///
/// The link never keeps its subscriber alive: that the subscriber is gone is
/// found out when the next value is to be delivered.
#[verifier::reject_recursive_types(T)]
pub struct Subscription<T> {
    state: Mutex<SubscriptionState<T>>,
}

impl<T> Subscription<T> {
    /// `link` is a link that `new` has returned for `subscriber`. It carries
    /// what `new` ensures, no more.
    pub open spec fn made_for(link: Arc<Self>, subscriber: Arc<Subscriber<T>>) -> bool {
        call_ensures(Subscription::<T>::new, (&subscriber,), link)
    }

    /// `demand` is the answer that `receive_value` has given on this link for
    /// `v`. It carries what `receive_value` ensures, no more.
    pub open spec fn offered(&self, v: T, demand: Demand) -> bool {
        call_ensures(Subscription::<T>::receive_value, (self, &v), demand)
    }

    /// The link's lock was made around `state`.
    pub closed spec fn made_around(&self, state: SubscriptionState<T>) -> bool {
        call_ensures(Mutex::<SubscriptionState<T>>::new, (state,), self.state)
    }

    /// A link to `subscriber`, with unlimited demand.
    pub fn new(subscriber: &Arc<Subscriber<T>>) -> (subscription: Arc<Self>)
        ensures
            exists|state: SubscriptionState<T>|
                state.demand()@ == None::<nat> && state.links(*subscriber)
                    && subscription.made_around(state),
    {
        let state = SubscriptionState::new(subscriber);
        let ghost first = state;
        let subscription = Self { state: Mutex::new(state) };
        assert(subscription.made_around(first));
        Arc::new(subscription)
    }

    /// `looked` is what a call of `looked` on this link has returned: what
    /// the state found behind the lock gave when it looked for its
    /// subscriber, or nothing with a poisoned lock.
    pub closed spec fn read(&self, looked: Option<Option<Arc<Subscriber<T>>>>) -> bool {
        call_ensures(Subscription::<T>::looked, (self,), looked)
    }

    /// Looks for the subscriber, as `SubscriptionState::target` does on the
    /// state behind the lock; nothing with a poisoned lock.
    fn looked(&self) -> (looked: Option<Option<Arc<Subscriber<T>>>>)
        ensures
            looked matches Some(target) ==> exists|state: SubscriptionState<T>|
                state.found(target),
    {
        match self.state.lock() {
            Ok(guard) => {
                let state = guard_ref(&guard);
                let target = state.target();
                assert(state.found(target));
                Some(target)
            },
            Err(_) => None,
        }
    }

    /// Looks for the subscriber while it holds the link's lock, lets the lock
    /// go and hands `v` to what was found, as `deliver` does. With a poisoned
    /// lock nobody is looked for and the answer is an empty demand.
    pub fn receive_value(&self, v: &T) -> (demand: Demand)
        ensures
            exists|looked: Option<Option<Arc<Subscriber<T>>>>|
                {
                    &&& self.read(looked)
                    &&& match looked {
                        Some(target) => SubscriptionState::<T>::delivered(target, *v, demand),
                        None => demand@ == Some(0nat),
                    }
                },
            demand@ == None::<nat> || demand@ == Some(0nat),
    {
        let looked = self.looked();
        let ghost seen = looked;
        let demand = match looked {
            Some(target) => SubscriptionState::deliver(target, v),
            None => Demand::nothing(),
        };
        assert(self.read(seen));
        demand
    }
}

} // verus!

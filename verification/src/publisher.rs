//! The producing end of a stream: a shared handle and the list of links
//! behind its lock.

use crate::demand::Demand;
use crate::subscriber::{Subscribe, Subscriber};
use crate::subscription::Subscription;
use crate::sync::{guard_mut, guard_ref};
use std::sync::{Arc, Mutex, Weak};
use vstd::prelude::*;

verus! {

/// The capability to broadcast values of one type.
pub trait Publish {
    type Output;

    /// Attaches `subscriber`: it receives every value sent from now on.
    fn receive_subscriber(&self, subscriber: &Arc<Subscriber<Self::Output>>);

    /// Delivers `v` to every attached subscriber, in the order of attachment.
    fn send_value(&self, v: &Self::Output);
}

/// A reference from a publisher's state back to its own handle, which does
/// not keep the handle alive: a `std::sync::Weak`. It is kept opaque, because a
/// state that names its own handle's type is a type that contains itself.
#[verifier::external_body]
#[verifier::reject_recursive_types(T)]
pub struct PublisherRef<T> {
    inner: Weak<Publisher<T>>,
}

impl<T> PublisherRef<T> {
    /// `Arc::downgrade`: a weak reference to the allocation of `publisher`.
    /// Nothing is claimed of the result.
    #[verifier::external_body]
    fn downgrade(publisher: &Arc<Publisher<T>>) -> (weak: Self) {
        PublisherRef { inner: Arc::downgrade(publisher) }
    }
}

/// The links of one publisher, in the order of attachment, which is the
/// order of delivery.
///
/// Its model is the sequence of links. Beside the links it holds the
/// reference to its handle, and a count of the changes made to the links,
/// which tells a copy of the list that is still current from one that is not.
#[verifier::reject_recursive_types(T)]
pub struct PublisherState<T> {
    publisher: Option<PublisherRef<T>>,
    subscriptions: Vec<Arc<Subscription<T>>>,
    changes: u64,
}

impl<T> View for PublisherState<T> {
    type V = Seq<Arc<Subscription<T>>>;

    closed spec fn view(&self) -> Seq<Arc<Subscription<T>>> {
        self.subscriptions@
    }
}

impl<T> PublisherState<T> {
    /// The reference to the handle that the state has recorded.
    pub closed spec fn recorded(&self) -> Option<PublisherRef<T>> {
        self.publisher
    }

    /// The state knows a handle it belongs to.
    pub open spec fn anchored(&self) -> bool {
        self.recorded().is_some()
    }

    /// How often links were attached or dropped, counted round the largest
    /// `u64`.
    pub closed spec fn changes(&self) -> u64 {
        self.changes
    }

    /// The count that follows `changes`.
    pub open spec fn next(changes: u64) -> u64 {
        if changes == u64::MAX {
            0
        } else {
            (changes + 1) as u64
        }
    }

    /// The count of changes after a step that left `after` of `before`
    /// links: the next one if the number of links differs.
    pub open spec fn counted(changes: u64, before: nat, after: nat) -> u64 {
        if before == after {
            changes
        } else {
            Self::next(changes)
        }
    }

    /// The state holds a reference that was taken from the handle
    /// `publisher`.
    pub closed spec fn anchored_to(&self, publisher: Arc<Publisher<T>>) -> bool {
        self.recorded() matches Some(reference) && call_ensures(
            PublisherRef::<T>::downgrade,
            (&publisher,),
            reference,
        )
    }

    /// A link that answered a delivery with `demand` stays attached: the
    /// demand covers one more value, which every demand but the empty one
    /// does.
    pub open spec fn spec_retains(demand: Option<nat>) -> bool {
        Demand::spec_consumed(demand, 1).is_some()
    }

    /// The links of `links` that stay attached once the link at each place
    /// has given the answer at the same place of `answers`, in their order.
    pub open spec fn kept(links: Seq<Arc<Subscription<T>>>, answers: Seq<Demand>) -> Seq<
        Arc<Subscription<T>>,
    >
        decreases links.len(),
    {
        if links.len() == 0 || answers.len() == 0 {
            Seq::empty()
        } else {
            let before = Self::kept(links.drop_last(), answers.drop_last());
            if Self::spec_retains(answers.last()@) {
                before.push(links.last())
            } else {
                before
            }
        }
    }

    /// Every link of `links` has been offered `v` and has given the answer
    /// at its place in `answers`.
    pub open spec fn offered_all(links: Seq<Arc<Subscription<T>>>, v: T, answers: Seq<Demand>) -> bool {
        &&& answers.len() == links.len()
        &&& forall|i: int| 0 <= i < links.len() ==> (#[trigger] links[i]).offered(v, answers[i])
    }

    /// Where every answer leaves its link attached, all links are kept.
    pub proof fn lemma_kept_all(links: Seq<Arc<Subscription<T>>>, answers: Seq<Demand>)
        requires
            answers.len() == links.len(),
            forall|i: int| 0 <= i < answers.len() ==> Self::spec_retains(#[trigger] answers[i]@),
        ensures
            Self::kept(links, answers) == links,
        decreases links.len(),
    {
        if links.len() > 0 {
            Self::lemma_kept_all(links.drop_last(), answers.drop_last());
            assert(links.drop_last().push(links.last()) == links);
        }
    }

    /// Where the answer at the place `gone` is empty and every other answer
    /// leaves its link attached, the link at `gone` is dropped and the others
    /// are kept in their order. A subscriber that is gone answers so.
    pub proof fn lemma_kept_without(
        links: Seq<Arc<Subscription<T>>>,
        answers: Seq<Demand>,
        gone: int,
    )
        requires
            answers.len() == links.len(),
            0 <= gone < links.len(),
            answers[gone]@ == Some(0nat),
            forall|i: int|
                0 <= i < answers.len() && i != gone ==> Self::spec_retains(#[trigger] answers[i]@),
        ensures
            Self::kept(links, answers) == links.remove(gone),
        decreases links.len(),
    {
        let last = links.len() - 1;
        if gone == last {
            Self::lemma_kept_all(links.drop_last(), answers.drop_last());
            assert(links.drop_last() == links.remove(gone));
        } else {
            Self::lemma_kept_without(links.drop_last(), answers.drop_last(), gone);
            assert(links.drop_last().remove(gone).push(links.last()) == links.remove(gone));
        }
    }

    /// A publisher state without links, which does not know its handle yet.
    pub fn new() -> (state: Self)
        ensures
            state@ == Seq::<Arc<Subscription<T>>>::empty(),
            state.recorded().is_none(),
            state.changes() == 0,
    {
        Self { publisher: None, subscriptions: Vec::new(), changes: 0 }
    }

    /// The number of links.
    pub fn len(&self) -> (len: usize)
        ensures
            len == self@.len(),
    {
        self.subscriptions.len()
    }

    /// The count of changes.
    pub fn generation(&self) -> (changes: u64)
        ensures
            changes == self.changes(),
    {
        self.changes
    }

    /// Counts one more change.
    fn count(&mut self)
        ensures
            final(self).changes() == Self::next(old(self).changes()),
            final(self)@ == old(self)@,
            final(self).recorded() == old(self).recorded(),
    {
        self.changes = if self.changes == u64::MAX {
            0
        } else {
            self.changes + 1
        };
    }

    /// Records a reference to the handle `publisher` that does not keep it
    /// alive. The links stay as they are.
    pub fn initialize(&mut self, publisher: &Arc<Publisher<T>>)
        ensures
            final(self).anchored_to(*publisher),
            final(self).anchored(),
            final(self)@ == old(self)@,
            final(self).changes() == old(self).changes(),
    {
        self.publisher = Some(PublisherRef::downgrade(publisher));
    }

    /// Appends `link` to the links.
    pub fn attach(&mut self, link: Arc<Subscription<T>>)
        ensures
            final(self)@ == old(self)@.push(link),
            final(self).recorded() == old(self).recorded(),
            final(self).changes() == Self::next(old(self).changes()),
    {
        self.subscriptions.push(link);
        self.count();
    }

    /// Makes a link to `subscriber`, appends it to the links, and tells the
    /// subscriber of it.
    pub fn receive_subscriber(&mut self, subscriber: &Arc<Subscriber<T>>)
        ensures
            final(self)@.len() == old(self)@.len() + 1,
            final(self)@.drop_last() == old(self)@,
            Subscription::made_for(final(self)@.last(), *subscriber),
            subscriber.notified(final(self)@.last()),
            final(self).recorded() == old(self).recorded(),
            final(self).changes() == Self::next(old(self).changes()),
    {
        let subscription = Subscription::new(subscriber);
        self.attach(Arc::clone(&subscription));
        subscriber.receive_subscription(subscription);
        assert(self@.drop_last() == old(self)@);
    }

    /// Whether a link that answered a delivery with `demand` stays attached:
    /// it does unless the demand is empty. A subscriber that is gone, or
    /// whose lock is poisoned, is answered for with an empty demand.
    pub fn retains(demand: Demand) -> (keep: bool)
        ensures
            keep == Self::spec_retains(demand@),
            keep == (demand@ != Some(0nat)),
    {
        demand.consumed(1).is_some()
    }

    /// Delivers `v` over every link, in the order of attachment, and keeps
    /// the links that `retains` keeps for the answer they gave, in their
    /// order. The other links are dropped.
    pub fn send_value(&mut self, v: &T)
        ensures
            exists|answers: Seq<Demand>|
                Self::offered_all(old(self)@, *v, answers) && final(self)@ == Self::kept(
                    old(self)@,
                    answers,
                ),
            final(self).recorded() == old(self).recorded(),
            final(self).changes() == Self::counted(
                old(self).changes(),
                old(self)@.len(),
                final(self)@.len(),
            ),
    {
        let mut subscriptions: Vec<Arc<Subscription<T>>> = Vec::new();
        let ghost mut answers: Seq<Demand> = Seq::empty();
        let mut i: usize = 0;
        while i < self.subscriptions.len()
            invariant
                0 <= i <= self.subscriptions@.len(),
                self.subscriptions@ == old(self).subscriptions@,
                Self::offered_all(self.subscriptions@.take(i as int), *v, answers),
                subscriptions@ == Self::kept(self.subscriptions@.take(i as int), answers),
            decreases self.subscriptions@.len() - i,
        {
            let subscription = Arc::clone(&self.subscriptions[i]);
            let demand = subscription.receive_value(v);
            let keep = Self::retains(demand);
            proof {
                let ghost before = self.subscriptions@.take(i as int);
                let ghost after = self.subscriptions@.take(i + 1);
                assert(after.drop_last() == before);
                assert(answers.push(demand).drop_last() == answers);
                answers = answers.push(demand);
            }
            if keep {
                subscriptions.push(subscription);
            }
            i += 1;
        }
        assert(self.subscriptions@.take(i as int) == self.subscriptions@);
        assert(Self::offered_all(old(self)@, *v, answers) && subscriptions@ == Self::kept(
            old(self)@,
            answers,
        ));
        let before = self.subscriptions.len();
        self.subscriptions = subscriptions;
        if self.subscriptions.len() != before {
            self.count();
        }
    }

    /// A state with the same links in the same order and the same count of
    /// changes, which does not know a handle.
    pub fn snapshot(&self) -> (copy: Self)
        ensures
            copy@ == self@,
            copy.changes() == self.changes(),
            copy.recorded().is_none(),
    {
        let mut subscriptions: Vec<Arc<Subscription<T>>> = Vec::new();
        let mut i: usize = 0;
        while i < self.subscriptions.len()
            invariant
                0 <= i <= self.subscriptions@.len(),
                subscriptions@ == self.subscriptions@.take(i as int),
            decreases self.subscriptions@.len() - i,
        {
            subscriptions.push(Arc::clone(&self.subscriptions[i]));
            i += 1;
            assert(self.subscriptions@.take(i as int) == self.subscriptions@.take(i - 1).push(
                self.subscriptions@[i - 1],
            ));
        }
        assert(self.subscriptions@.take(i as int) == self.subscriptions@);
        Self { publisher: None, subscriptions, changes: self.changes }
    }

    /// Takes over the outcome of a delivery that was made on a copy of the
    /// links, taken when the count of changes was `seen`. Where the links
    /// have not changed since, they are replaced by those of `retained`;
    /// where they have, they stay as they are, and a later delivery finds
    /// the links that are to be dropped.
    pub fn settle(&mut self, seen: u64, retained: &Self)
        ensures
            final(self)@ == if old(self).changes() == seen {
                retained@
            } else {
                old(self)@
            },
            final(self).changes() == if old(self).changes() == seen {
                Self::counted(old(self).changes(), old(self)@.len(), retained@.len())
            } else {
                old(self).changes()
            },
            final(self).recorded() == old(self).recorded(),
    {
        if self.changes == seen {
            let before = self.subscriptions.len();
            self.subscriptions = retained.snapshot().subscriptions;
            if self.subscriptions.len() != before {
                self.count();
            }
        }
    }
}

/// A broadcast point: every value sent to it is delivered to the
/// subscribers attached to it.
///
/// The links live behind the handle's lock, so no contract of a handle can
/// speak of them: what each operation does to them is the contract of the
/// operation of the same name on [`PublisherState`]. The handle holds its
/// lock only while it reads or changes the list of links, never while a value
/// is delivered. An operation whose lock is poisoned does nothing.
#[verifier::reject_recursive_types(T)]
pub struct Publisher<T> {
    state: Mutex<PublisherState<T>>,
}

impl<T> Publisher<T> {
    /// A call of `send_value` that was handed `v` on this publisher has
    /// returned. It carries nothing else: what the call did to the links is
    /// the contract of `PublisherState::send_value`.
    pub open spec fn sent(&self, v: T) -> bool {
        call_ensures(<Publisher<T> as Publish>::send_value, (self, &v), ())
    }

    /// A call of `receive_subscriber` that was handed `subscriber` on this
    /// publisher has returned. It carries nothing else: what the call did to
    /// the links is the contract of `PublisherState::receive_subscriber`.
    pub open spec fn attached(&self, subscriber: Arc<Subscriber<T>>) -> bool {
        call_ensures(<Publisher<T> as Publish>::receive_subscriber, (self, &subscriber), ())
    }

    /// A call of `anchor` on this handle has returned: the state behind the
    /// lock was handed the handle, as `PublisherState::initialize` takes it.
    pub closed spec fn told(handle: Arc<Self>) -> bool {
        call_ensures(Publisher::<T>::anchor, (&handle,), ())
    }

    /// The publisher's lock was made around `state`.
    pub closed spec fn made_around(&self, state: PublisherState<T>) -> bool {
        call_ensures(Mutex::<PublisherState<T>>::new, (state,), self.state)
    }

    /// `copied` is what a call of `copied` on this publisher has returned: a
    /// copy of the state found behind the lock, or nothing with a poisoned
    /// lock.
    pub closed spec fn read(&self, copied: Option<PublisherState<T>>) -> bool {
        call_ensures(Publisher::<T>::copied, (self,), copied)
    }

    /// `taken` is what a call of `attach` that was handed `link` on this
    /// publisher has returned: whether the lock was given, and with it
    /// whether the state behind it has appended `link`.
    pub closed spec fn handed(&self, link: Arc<Subscription<T>>, taken: bool) -> bool {
        call_ensures(Publisher::<T>::attach, (self, link), taken)
    }

    /// Hands the handle to the state behind the lock, which records a
    /// reference to it.
    fn anchor(handle: &Arc<Self>) {
        if let Ok(mut guard) = handle.state.lock() {
            guard_mut(&mut guard).initialize(handle);
        }
    }

    /// A copy of the state behind the lock, as `PublisherState::snapshot`
    /// makes it; nothing with a poisoned lock.
    fn copied(&self) -> (copied: Option<PublisherState<T>>) {
        match self.state.lock() {
            Ok(guard) => Some(guard_ref(&guard).snapshot()),
            Err(_) => None,
        }
    }

    /// Hands `link` to the state behind the lock, which appends it. Tells
    /// whether the lock was given.
    fn attach(&self, link: Arc<Subscription<T>>) -> (taken: bool) {
        match self.state.lock() {
            Ok(mut guard) => {
                guard_mut(&mut guard).attach(link);
                true
            },
            Err(_) => false,
        }
    }

    /// Hands the outcome of a delivery to the state behind the lock, as
    /// `PublisherState::settle` takes it.
    fn settle(&self, seen: u64, retained: &PublisherState<T>) {
        if let Ok(mut guard) = self.state.lock() {
            guard_mut(&mut guard).settle(seen, retained);
        }
    }

    /// A publisher whose lock is made around `state`, and whose state was
    /// then told of the handle.
    pub fn around(state: PublisherState<T>) -> (publisher: Arc<Self>)
        ensures
            publisher.made_around(state),
            Self::told(publisher),
    {
        let publisher = Arc::new(Self { state: Mutex::new(state) });
        Self::anchor(&publisher);
        publisher
    }

    /// A publisher without subscribers, whose state was told of the handle.
    pub fn new() -> (publisher: Arc<Self>)
        ensures
            exists|state: PublisherState<T>|
                state@ == Seq::<Arc<Subscription<T>>>::empty() && publisher.made_around(state),
            Self::told(publisher),
    {
        Self::around(PublisherState::new())
    }

    /// Delivers `value` to every attached subscriber.
    pub fn send(&self, value: T)
        ensures
            self.sent(value),
    {
        self.send_value(&value)
    }
}

impl<T> Publish for Publisher<T> {
    type Output = T;

    /// Makes a link to `subscriber` and hands it to the state behind the
    /// lock, which appends it; then tells the subscriber of the link. With a
    /// poisoned lock the link is dropped and the subscriber is not told.
    fn receive_subscriber(&self, subscriber: &Arc<Subscriber<T>>)
        ensures
            exists|link: Arc<Subscription<T>>, taken: bool|
                {
                    &&& Subscription::made_for(link, *subscriber)
                    &&& self.handed(link, taken)
                    &&& taken ==> subscriber.notified(link)
                },
    {
        let link = Subscription::new(subscriber);
        let taken = self.attach(Arc::clone(&link));
        if taken {
            subscriber.receive_subscription(link);
        }
        assert(Subscription::made_for(link, *subscriber) && self.handed(link, taken));
    }

    /// Copies the links while it holds the lock, lets the lock go, delivers
    /// `v` over the copies as `PublisherState::send_value` does, and takes the
    /// lock again to `settle` the outcome: where the links have not changed
    /// in the meantime, those that were dropped leave the list. With a
    /// poisoned lock nothing is delivered.
    fn send_value(&self, v: &T)
        ensures
            exists|copied: Option<PublisherState<T>>|
                {
                    &&& self.read(copied)
                    &&& copied matches Some(links) ==> exists|answers: Seq<Demand>|
                        PublisherState::offered_all(links@, *v, answers)
                },
    {
        let copied = self.copied();
        let ghost found = copied;
        if let Some(mut links) = copied {
            let seen = links.generation();
            links.send_value(v);
            self.settle(seen, &links);
        }
        assert(self.read(found));
    }
}

} // verus!

//! Reactive publish/subscribe primitives with flow-control accounting, and a
//! declarative element tree that is wired together with them.
//!
//! A [`Publisher`] broadcasts each value it is sent over its links
//! ([`Subscription`]) to the [`Subscriber`]s attached to it, and each
//! subscriber invokes its sinks ([`Sink`]) with the value. A [`Property`] is a
//! cell that caches the last value sent through its publisher. A [`Demand`]
//! counts what a consumer will still accept.
//!
//! Publishers, subscribers, links and elements are shared handles around a
//! lock. What a lock holds is no part of the handle's value: any holder may
//! have replaced it between two operations. So the library states its
//! behaviour in two layers.
//!
//! - The state types ([`SubscriberState`], [`PublisherState`],
//!   [`SubscriptionState`], [`DOMElementState`]) are what the locks hold. Their
//!   operations take the state by `&mut` and say exactly what they do to it.
//! - A handle's operation takes the lock, reads or changes the state with the
//!   operation of the same name, and lets the lock go before anything runs
//!   that the library was handed: a sink, a `clone`, a value's destructor. So
//!   a sink may use the very publisher or subscriber that invoked it. With a
//!   poisoned lock an operation does nothing.
//! - A handle's contract speaks of what was called. `made_around` holds of
//!   the state a lock was made with. `read`, `handed` and `tried` hold of what
//!   a handle's look behind its lock has returned: a copy of the state found
//!   there, or the news that the lock is poisoned. Predicates such as `sent`,
//!   `attached`, `registered`, `received`, `offered`, `notified`, `accepted`,
//!   `stored`, `adopted`, `read_text`, `read_onclick` and `styled` hold of
//!   the arguments and the result of a call that has returned. Each carries
//!   what the called function ensures and no more; what the call did behind
//!   the lock is the contract of the state's operation.
//!
//! The items of [`sync`] and the three opaque structs (`WeakRef`,
//! `PublisherRef`, `StateCell`) stand for the standard library's locks and
//! weak references and are taken on trust.

pub mod demand;
pub mod property;
pub mod publisher;
pub mod sink;
pub mod subscriber;
pub mod subscription;
pub mod sync;
pub mod ui;

pub use crate::demand::Demand;
pub use crate::property::Property;
pub use crate::publisher::{Publish, Publisher, PublisherState};
pub use crate::sink::{Callback, Sink};
pub use crate::subscriber::{Subscribe, Subscriber, SubscriberState};
pub use crate::subscription::{Subscription, SubscriptionState};
pub use crate::ui::builder::{DOMContext, DocumentBuilder, Place};
pub use crate::ui::declare::{DeclareElement, DeclareTextManipulate, DeclareTraverse, Element};
pub use crate::ui::document::DOMDocument;
pub use crate::ui::element::{DOMElement, DOMElementState, DOMElementType};
pub use crate::ui::proto::button::Button;
pub use crate::ui::proto::division::Division;
pub use crate::ui::proto::paragraph::Paragraph;

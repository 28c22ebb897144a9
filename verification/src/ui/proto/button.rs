//! Declaring a button.

use crate::property::Property;
use crate::publisher::{Publish, Publisher};
use crate::subscriber::Subscriber;
use crate::ui::builder::DOMContext;
use crate::ui::declare::DeclareElement;
use crate::ui::element::{DOMElement, DOMElementType};
use std::sync::Arc;
use vstd::prelude::*;

verus! {

/// A declared button.
pub struct Button<'a, Ctx> {
    context: &'a mut Ctx,
    element: Arc<DOMElement>,
}

impl<'a, Ctx> Button<'a, Ctx> where Ctx: DOMContext {
    /// Declares a button in `context`: the element is made there. A place
    /// whose declaration is not used again is as the declaration holds it.
    pub fn new(context: &'a mut Ctx) -> (declared: Self)
        ensures
            declared.spec_element().spec_element_type() == DOMElementType::Button,
            old(context).place().created(
                declared.spec_context().place(),
                declared.spec_element(),
            ),
            has_resolved(declared) ==> *final(context) == declared.spec_context(),
            *final(declared.spec_borrow()) == *final(context),
    {
        let element = context.create_element(DOMElementType::Button);
        Self { context: context, element: element }
    }

    /// Sets the button's text.
    pub fn text<S>(self, text: S) -> (declared: Self) where S: Into<String>
        ensures
            declared == self,
            exists|found: Option<Arc<Property<Option<String>>>>|
                {
                    &&& self.spec_element().read_text(found)
                    &&& found matches Some(property) ==> exists|content: String|
                        call_ensures(S::into, (text,), content) && property.accepted(
                            Some(content),
                        )
                },
    {
        let ghost wanted = text;
        let found = self.element().text_property();
        let ghost seen = found;
        if let Some(text_property) = found {
            let content: String = text.into();
            let ghost handed = content;
            text_property.accept(&Some(content));
            assert(call_ensures(S::into, (wanted,), handed) && text_property.accepted(
                Some(handed),
            ));
        }
        assert(self.spec_element().read_text(seen));
        self
    }

    /// Lets `subscriber` receive the button's clicks.
    pub fn publish_onclick(self, subscriber: &Arc<Subscriber<()>>) -> (declared: Self)
        ensures
            declared == self,
            exists|found: Option<Arc<Publisher<()>>>|
                {
                    &&& self.spec_element().read_onclick(found)
                    &&& found matches Some(source) ==> source.attached(*subscriber)
                },
    {
        let found = self.element().onclick_publisher();
        let ghost seen = found;
        if let Some(onclick_publisher) = found {
            onclick_publisher.receive_subscriber(subscriber);
            assert(onclick_publisher.attached(*subscriber));
        }
        assert(self.spec_element().read_onclick(seen));
        self
    }

    /// Lets the button's text follow what `publisher` sends.
    pub fn subscribe_text(self, publisher: &Arc<Publisher<Option<String>>>) -> (declared: Self)
        ensures
            declared == self,
            exists|found: Option<Arc<Property<Option<String>>>>|
                {
                    &&& self.spec_element().read_text(found)
                    &&& found matches Some(property) ==> publisher.attached(
                        property.spec_subscriber(),
                    )
                },
    {
        let found = self.element().text_property();
        let ghost seen = found;
        if let Some(text_property) = found {
            publisher.receive_subscriber(text_property.subscriber());
            assert(publisher.attached(text_property.spec_subscriber()));
        }
        assert(self.spec_element().read_text(seen));
        self
    }
}

impl<'a, Ctx> DeclareElement for Button<'a, Ctx> where Ctx: DOMContext {
    type Context = Ctx;

    closed spec fn spec_element(&self) -> Arc<DOMElement> {
        self.element
    }

    closed spec fn spec_context(&self) -> Ctx {
        *self.context
    }

    closed spec fn spec_borrow(&self) -> &mut Ctx {
        self.context
    }

    proof fn lemma_settled(&self) {
    }

    fn context_mut(&mut self) -> (context: &mut Ctx) {
        self.context
    }

    fn element(&self) -> (element: &Arc<DOMElement>) {
        &self.element
    }
}

} // verus!

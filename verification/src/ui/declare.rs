//! The notation in which elements are declared.

use crate::property::Property;
use crate::publisher::{Publish, Publisher};
use crate::subscriber::Subscriber;
use crate::ui::builder::DOMContext;
use crate::ui::element::{DOMElement, DOMElementType};
use std::sync::Arc;
use vstd::prelude::*;

verus! {

/// A declared element together with the place it was declared in.
pub trait DeclareElement: Sized {
    type Context;

    /// The declared element.
    spec fn spec_element(&self) -> Arc<DOMElement>;

    /// The place the element was declared in, as it is now.
    spec fn spec_context(&self) -> Self::Context;

    /// The borrow of the place that the declaration holds. Its final value
    /// is the place as its owner finds it once the declaration is gone.
    spec fn spec_borrow(&self) -> &mut Self::Context;

    /// A declaration that is not used again leaves the place as it holds
    /// it.
    proof fn lemma_settled(&self)
        ensures
            has_resolved(*self) ==> *final(self.spec_borrow()) == self.spec_context(),
    ;

    /// The place the element was declared in. What the caller makes of the
    /// place is what the declaration holds afterwards; the declared element
    /// and the borrow of the place stay the same.
    fn context_mut(&mut self) -> (context: &mut Self::Context)
        ensures
            *context == old(self).spec_context(),
            final(self).spec_context() == *final(context),
            final(self).spec_element() == old(self).spec_element(),
            *final(final(self).spec_borrow()) == *final(old(self).spec_borrow()),
    ;

    /// The declared element.
    fn element(&self) -> (element: &Arc<DOMElement>)
        ensures
            *element == self.spec_element(),
    ;
}

/// The declarations `f` may be made in every place of type `Ctx` in which
/// an element is entered.
pub open spec fn declares_inside<Ctx: DOMContext, F: FnOnce(&mut Ctx)>(f: F) -> bool {
    forall|context: &mut Ctx|
        (*context).place().current.is_some() ==> call_requires(f, (context,))
}

/// Declaring the children of an element.
pub trait DeclareTraverse: Sized {
    type Context: DOMContext;

    /// Declares the children of this element: `f` makes its declarations in
    /// a place where new elements become children of this one. Where an
    /// element is entered, `f` must be ready to declare and must leave that
    /// element the current one.
    fn children<F>(self, f: F) -> Self where F: FnOnce(&mut Self::Context)
        requires
            declares_inside::<Self::Context, F>(f),
            forall|context: &mut Self::Context| #[trigger]
                call_ensures(f, (context,), ()) && (*context).place().current.is_some() ==> (
                *final(context)).place().current == (*context).place().current,
    ;
}

/// Setting the text, the styles and the wiring of an element.
pub trait DeclareTextManipulate: Sized {
    /// Sets the element's text.
    fn text<S>(self, text: S) -> Self where S: Into<String>;

    /// Adds the style `key: value` to the element.
    fn style<K, V>(self, key: K, value: V) -> Self where K: Into<String>, V: Into<String>;

    /// Lets `subscriber` receive the element's clicks.
    fn publish_onclick(self, subscriber: &Arc<Subscriber<()>>) -> Self;

    /// Lets the element's text follow what `publisher` sends.
    fn subscribe_text(self, publisher: &Arc<Publisher<Option<String>>>) -> Self;
}

impl<T, Ctx> DeclareTraverse for T where T: DeclareElement<Context = Ctx>, Ctx: DOMContext {
    type Context = Ctx;

    /// Enters the declared element, lets `f` make its declarations in the
    /// place so entered, and leaves the element again in the place that `f`
    /// has made of it. Where `f` leaves every place with an entered element
    /// as it finds it, the place is afterwards as it was before.
    fn children<F>(self, f: F) -> (declared: Self) where F: FnOnce(&mut Ctx)
        ensures
            declared.spec_element() == self.spec_element(),
            *final(declared.spec_borrow()) == *final(self.spec_borrow()),
            has_resolved(declared) ==> *final(self.spec_borrow()) == declared.spec_context(),
            exists|inside: &mut Ctx|
                {
                    &&& self.spec_context().place().entered(
                        (*inside).place(),
                        self.spec_element(),
                    )
                    &&& call_ensures(f, (inside,), ())
                    &&& (*final(inside)).place().left(declared.spec_context().place())
                },
            self.spec_context().place().wf() && (forall|context: &mut Ctx| #[trigger]
                call_ensures(f, (context,), ()) && (*context).place().current.is_some() ==> (
                *final(context)).place() == (*context).place())
                ==> declared.spec_context().place() == self.spec_context().place(),
    {
        let mut declared = self;
        let element = Arc::clone(declared.element());
        let context = declared.context_mut();
        let ghost before = (*context).place();
        context.enter_children(&element);
        let ghost inside = (*context).place();
        f(context);
        let ghost made = (*context).place();
        context.leave_children(&element);
        proof {
            if before.wf() && made == inside {
                before.lemma_enter_then_leave(inside, (*context).place(), element);
            }
            declared.lemma_settled();
        }
        declared
    }
}

impl<T, Ctx> DeclareTextManipulate for T where T: DeclareElement<Context = Ctx>, Ctx: DOMContext {
    fn text<S>(self, text: S) -> (declared: Self) where S: Into<String>
        ensures
            declared == self,
            exists|found: Option<Arc<Property<Option<String>>>>|
                {
                    &&& self.spec_element().read_text(found)
                    &&& found matches Some(property) ==> exists|content: String|
                        call_ensures(S::into, (text,), content) && property.accepted(
                            Some(content),
                        )
                },
    {
        let ghost wanted = text;
        let found = self.element().text_property();
        let ghost seen = found;
        if let Some(text_property) = found {
            let content: String = text.into();
            let ghost handed = content;
            text_property.accept(&Some(content));
            assert(call_ensures(S::into, (wanted,), handed) && text_property.accepted(
                Some(handed),
            ));
        }
        assert(self.spec_element().read_text(seen));
        self
    }

    fn style<K, V>(self, key: K, value: V) -> (declared: Self) where K: Into<String>, V: Into<String>
        ensures
            declared == self,
            exists|name: String, setting: String|
                {
                    &&& call_ensures(K::into, (key,), name)
                    &&& call_ensures(V::into, (value,), setting)
                    &&& self.spec_element().styled(name, setting)
                },
    {
        let ghost wanted_key = key;
        let ghost wanted_value = value;
        let name: String = key.into();
        let setting: String = value.into();
        let ghost handed = (name, setting);
        self.element().push_style(name, setting);
        assert(call_ensures(K::into, (wanted_key,), handed.0) && call_ensures(
            V::into,
            (wanted_value,),
            handed.1,
        ) && self.spec_element().styled(handed.0, handed.1));
        self
    }

    fn publish_onclick(self, subscriber: &Arc<Subscriber<()>>) -> (declared: Self)
        ensures
            declared == self,
            exists|found: Option<Arc<Publisher<()>>>|
                {
                    &&& self.spec_element().read_onclick(found)
                    &&& found matches Some(source) ==> source.attached(*subscriber)
                },
    {
        let found = self.element().onclick_publisher();
        let ghost seen = found;
        if let Some(onclick_publisher) = found {
            onclick_publisher.receive_subscriber(subscriber);
            assert(onclick_publisher.attached(*subscriber));
        }
        assert(self.spec_element().read_onclick(seen));
        self
    }

    fn subscribe_text(self, publisher: &Arc<Publisher<Option<String>>>) -> (declared: Self)
        ensures
            declared == self,
            exists|found: Option<Arc<Property<Option<String>>>>|
                {
                    &&& self.spec_element().read_text(found)
                    &&& found matches Some(property) ==> publisher.attached(
                        property.spec_subscriber(),
                    )
                },
    {
        let found = self.element().text_property();
        let ghost seen = found;
        if let Some(text_property) = found {
            publisher.receive_subscriber(text_property.subscriber());
            assert(publisher.attached(text_property.spec_subscriber()));
        }
        assert(self.spec_element().read_text(seen));
        self
    }
}

/// A declared element of the general kind.
pub struct Element<'a, Ctx> {
    context: &'a mut Ctx,
    element: Arc<DOMElement>,
}

impl<'a, Ctx> Element<'a, Ctx> where Ctx: DOMContext {
    /// Declares a division in `context`: the element is made there. A place
    /// whose declaration is not used again is as the declaration holds it.
    pub fn new(context: &'a mut Ctx) -> (declared: Self)
        ensures
            declared.spec_element().spec_element_type() == DOMElementType::Div,
            old(context).place().created(
                declared.spec_context().place(),
                declared.spec_element(),
            ),
            has_resolved(declared) ==> *final(context) == declared.spec_context(),
            *final(declared.spec_borrow()) == *final(context),
    {
        let element = context.create_element(DOMElementType::Div);
        Self { context: context, element: element }
    }
}

impl<'a, Ctx> DeclareElement for Element<'a, Ctx> where Ctx: DOMContext {
    type Context = Ctx;

    closed spec fn spec_element(&self) -> Arc<DOMElement> {
        self.element
    }

    closed spec fn spec_context(&self) -> Ctx {
        *self.context
    }

    closed spec fn spec_borrow(&self) -> &mut Ctx {
        self.context
    }

    proof fn lemma_settled(&self) {
    }

    fn context_mut(&mut self) -> (context: &mut Ctx) {
        self.context
    }

    fn element(&self) -> (element: &Arc<DOMElement>) {
        &self.element
    }
}

} // verus!

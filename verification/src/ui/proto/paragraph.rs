//! Declaring a paragraph.

use crate::ui::builder::DOMContext;
use crate::ui::declare::DeclareElement;
use crate::ui::element::{DOMElement, DOMElementType};
use std::sync::Arc;
use vstd::prelude::*;

verus! {

/// A declared paragraph.
pub struct Paragraph<'a, Ctx> {
    context: &'a mut Ctx,
    element: Arc<DOMElement>,
}

impl<'a, Ctx> Paragraph<'a, Ctx> where Ctx: DOMContext {
    /// Declares a paragraph in `context`: the element is made there. A place
    /// whose declaration is not used again is as the declaration holds it.
    pub fn new(context: &'a mut Ctx) -> (declared: Self)
        ensures
            declared.spec_element().spec_element_type() == DOMElementType::Paragraph,
            old(context).place().created(
                declared.spec_context().place(),
                declared.spec_element(),
            ),
            has_resolved(declared) ==> *final(context) == declared.spec_context(),
            *final(declared.spec_borrow()) == *final(context),
    {
        let element = context.create_element(DOMElementType::Paragraph);
        Self { context: context, element: element }
    }
}

impl<'a, Ctx> DeclareElement for Paragraph<'a, Ctx> where Ctx: DOMContext {
    type Context = Ctx;

    closed spec fn spec_element(&self) -> Arc<DOMElement> {
        self.element
    }

    closed spec fn spec_context(&self) -> Ctx {
        *self.context
    }

    closed spec fn spec_borrow(&self) -> &mut Ctx {
        self.context
    }

    proof fn lemma_settled(&self) {
    }

    fn context_mut(&mut self) -> (context: &mut Ctx) {
        self.context
    }

    fn element(&self) -> (element: &Arc<DOMElement>) {
        &self.element
    }
}

} // verus!

//! The builder that nests declared elements into a document.

use crate::ui::document::DOMDocument;
use crate::ui::element::{DOMElement, DOMElementType};
use std::sync::Arc;
use vstd::prelude::*;

verus! {

/// The model of the place a declaration is made in.
pub struct Place {
    /// The roots declared so far, in the order of their declaration.
    pub roots: Seq<Arc<DOMElement>>,
    /// The elements entered before the current one and not left yet,
    /// outermost first.
    pub parents: Seq<Arc<DOMElement>>,
    /// The element whose children are being declared.
    pub current: Option<Arc<DOMElement>>,
}

impl Place {
    /// Outside every element no parent is waiting.
    pub open spec fn wf(self) -> bool {
        self.current.is_none() ==> self.parents.len() == 0
    }

    /// `after` is this place once `element` is entered: the element that was
    /// current, if there was one, is the innermost parent, and `element` is
    /// current.
    pub open spec fn entered(self, after: Place, element: Arc<DOMElement>) -> bool {
        &&& after.roots == self.roots
        &&& after.current == Some(element)
        &&& after.parents == match self.current {
            Some(current) => self.parents.push(current),
            None => self.parents,
        }
    }

    /// `after` is this place once its current element is left: the innermost
    /// parent is current again, or no element is if no parent is waiting.
    pub open spec fn left(self, after: Place) -> bool {
        &&& after.roots == self.roots
        &&& if self.parents.len() > 0 {
            after.parents == self.parents.drop_last() && after.current == Some(
                self.parents.last(),
            )
        } else {
            after.parents == self.parents && after.current.is_none()
        }
    }

    /// `after` is this place once `element` is made in it: `element` is the
    /// last root if no element is entered, and no root otherwise.
    pub open spec fn created(self, after: Place, element: Arc<DOMElement>) -> bool {
        &&& after.parents == self.parents
        &&& after.current == self.current
        &&& after.roots == if self.current.is_some() {
            self.roots
        } else {
            self.roots.push(element)
        }
    }

    /// Entering an element and leaving it again restores a place in which
    /// no parent waits outside every element.
    pub proof fn lemma_enter_then_leave(self, inside: Place, after: Place, element: Arc<DOMElement>)
        requires
            self.wf(),
            self.entered(inside, element),
            inside.left(after),
        ensures
            after == self,
    {
        match self.current {
            Some(current) => {
                assert(self.parents.push(current).drop_last() == self.parents);
            },
            None => {},
        }
    }
}

/// What a declaration needs of the place it is made in.
pub trait DOMContext {
    /// The model of the place.
    spec fn place(&self) -> Place;

    /// From now on new elements become children of `element`.
    fn enter_children(&mut self, element: &Arc<DOMElement>)
        ensures
            old(self).place().entered(final(self).place(), *element),
    ;

    /// New elements go again where they went before `element` was entered.
    /// Only the current element can be left.
    fn leave_children(&mut self, element: &Arc<DOMElement>)
        requires
            old(self).place().current matches Some(current) ==> current == *element,
        ensures
            old(self).place().left(final(self).place()),
    ;

    /// Makes an element of kind `tp`, without children and styles, at the
    /// current place: it is handed to the current element as a child, or is
    /// the last root if no element is entered.
    fn create_element(&mut self, tp: DOMElementType) -> (element: Arc<DOMElement>)
        ensures
            element.spec_element_type() == tp,
            element.made_bare(),
            old(self).place().created(final(self).place(), element),
            old(self).place().current matches Some(parent) ==> parent.adopted(element),
    ;
}

/// Builds a document from declarations. Its model is its [`Place`].
pub struct DocumentBuilder {
    root_elements: Vec<Arc<DOMElement>>,
    parent_stack: Vec<Arc<DOMElement>>,
    current_element: Option<Arc<DOMElement>>,
}

impl DocumentBuilder {
    /// A builder with nothing declared and no element entered.
    pub fn new() -> (builder: Self)
        ensures
            builder.place() == (Place {
                roots: Seq::<Arc<DOMElement>>::empty(),
                parents: Seq::<Arc<DOMElement>>::empty(),
                current: None,
            }),
    {
        Self { root_elements: Vec::new(), parent_stack: Vec::new(), current_element: None }
    }

    /// The document of the roots declared so far.
    pub fn build(self) -> (document: Arc<DOMDocument>)
        ensures
            document@ == self.place().roots,
    {
        Arc::new(DOMDocument::new(self.root_elements))
    }
}

impl DOMContext for DocumentBuilder {
    closed spec fn place(&self) -> Place {
        Place {
            roots: self.root_elements@,
            parents: self.parent_stack@,
            current: self.current_element,
        }
    }

    /// Pushes the current element, if there is one, onto the parents and
    /// makes `element` the current one.
    fn enter_children(&mut self, element: &Arc<DOMElement>)
        ensures
            final(self).place().wf(),
    {
        if let Some(current) = self.current_element.take() {
            self.parent_stack.push(current);
        }
        self.current_element = Some(Arc::clone(element));
    }

    /// Makes the innermost parent the current element again, or no element
    /// if no parent is waiting.
    fn leave_children(&mut self, element: &Arc<DOMElement>)
        ensures
            final(self).place().wf(),
    {
        self.current_element = self.parent_stack.pop();
    }

    /// Makes an element of kind `tp`. It becomes the last child of the
    /// current element, or the last root if no element is entered.
    fn create_element(&mut self, tp: DOMElementType) -> (element: Arc<DOMElement>) {
        let element = DOMElement::new(tp);
        match &self.current_element {
            Some(current) => {
                current.push_child(&element);
            },
            None => {
                self.root_elements.push(Arc::clone(&element));
            },
        }
        element
    }
}

} // verus!

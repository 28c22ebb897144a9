//! A finished tree.

use crate::ui::element::DOMElement;
use std::sync::Arc;
use vstd::prelude::*;

verus! {

/// A document: its root elements, in the order of their declaration.
pub struct DOMDocument {
    elements: Vec<Arc<DOMElement>>,
}

impl View for DOMDocument {
    type V = Seq<Arc<DOMElement>>;

    closed spec fn view(&self) -> Seq<Arc<DOMElement>> {
        self.elements@
    }
}

impl DOMDocument {
    /// The document with the roots `elements`.
    pub fn new(elements: Vec<Arc<DOMElement>>) -> (document: Self)
        ensures
            document@ == elements@,
    {
        Self { elements }
    }

    /// The root elements.
    pub fn elements(&self) -> (elements: &Vec<Arc<DOMElement>>)
        ensures
            elements@ == self@,
    {
        &self.elements
    }
}

} // verus!

//! Elements of the tree: their kind, and the state each keeps behind a lock.

use crate::property::Property;
use crate::publisher::Publisher;
use crate::sync::{guard_mut, guard_ref};
use std::sync::{Arc, LockResult, Mutex, MutexGuard};
use vstd::prelude::*;

verus! {

/// The kinds of element.
#[derive(Debug, Clone, Copy, PartialEq, Eq, Structural)]
pub enum DOMElementType {
    Div,
    Button,
    Paragraph,
}

impl DOMElementType {
    /// Elements of this kind carry a text: all kinds do.
    pub open spec fn spec_has_text(&self) -> bool {
        true
    }

    /// Elements of this kind can be clicked: all kinds can.
    pub open spec fn spec_has_onclick(&self) -> bool {
        true
    }

    /// The tag under which elements of this kind are rendered.
    pub open spec fn spec_name(&self) -> Seq<char> {
        match self {
            DOMElementType::Div => "div"@,
            DOMElementType::Button => "button"@,
            DOMElementType::Paragraph => "p"@,
        }
    }

    /// Whether elements of this kind carry a text.
    pub fn has_text(&self) -> (has: bool)
        ensures
            has == self.spec_has_text(),
    {
        match self {
            DOMElementType::Div => true,
            DOMElementType::Button => true,
            DOMElementType::Paragraph => true,
        }
    }

    /// Whether elements of this kind can be clicked.
    pub fn has_onclick(&self) -> (has: bool)
        ensures
            has == self.spec_has_onclick(),
    {
        match self {
            DOMElementType::Div => true,
            DOMElementType::Button => true,
            DOMElementType::Paragraph => true,
        }
    }

    /// The tag under which elements of this kind are rendered.
    pub fn name(&self) -> (name: String)
        ensures
            name@ == self.spec_name(),
    {
        match self {
            DOMElementType::Div => "div".to_string(),
            DOMElementType::Button => "button".to_string(),
            DOMElementType::Paragraph => "p".to_string(),
        }
    }
}

/// What an element keeps behind its lock: its children and styles in the
/// order in which they were added, its text and its click publisher.
pub struct DOMElementState {
    children: Vec<Arc<DOMElement>>,
    text_property: Option<Arc<Property<Option<String>>>>,
    onclick_publisher: Option<Arc<Publisher<()>>>,
    styles: Vec<(String, String)>,
}

impl DOMElementState {
    /// The children, in the order in which they were added.
    pub closed spec fn spec_children(&self) -> Seq<Arc<DOMElement>> {
        self.children@
    }

    /// The styles, in the order in which they were added.
    pub closed spec fn spec_styles(&self) -> Seq<(String, String)> {
        self.styles@
    }

    /// The property that holds the element's text.
    pub closed spec fn spec_text_property(&self) -> Option<Arc<Property<Option<String>>>> {
        self.text_property
    }

    /// The publisher of the element's clicks.
    pub closed spec fn spec_onclick_publisher(&self) -> Option<Arc<Publisher<()>>> {
        self.onclick_publisher
    }

    /// The state of a new element of kind `tp`: no children, no styles, an
    /// empty text if the kind carries one, a click publisher if it can be
    /// clicked.
    pub fn new(tp: &DOMElementType) -> (state: Self)
        ensures
            state.spec_children() == Seq::<Arc<DOMElement>>::empty(),
            state.spec_styles() == Seq::<(String, String)>::empty(),
            state.spec_text_property().is_some() == tp.spec_has_text(),
            state.spec_onclick_publisher().is_some() == tp.spec_has_onclick(),
    {
        let text_property = if tp.has_text() {
            Some(Property::new(None))
        } else {
            None
        };
        let onclick_publisher = if tp.has_onclick() {
            Some(Publisher::new())
        } else {
            None
        };
        Self { children: Vec::new(), text_property, onclick_publisher, styles: Vec::new() }
    }

    /// The property that holds the element's text.
    pub fn text_property(&self) -> (property: &Option<Arc<Property<Option<String>>>>)
        ensures
            *property == self.spec_text_property(),
    {
        &self.text_property
    }

    /// The publisher of the element's clicks.
    pub fn onclick_publisher(&self) -> (publisher: &Option<Arc<Publisher<()>>>)
        ensures
            *publisher == self.spec_onclick_publisher(),
    {
        &self.onclick_publisher
    }

    /// The styles, in the order in which they were added.
    pub fn styles(&self) -> (styles: &Vec<(String, String)>)
        ensures
            styles@ == self.spec_styles(),
    {
        &self.styles
    }

    /// The children, in the order in which they were added.
    pub fn children(&self) -> (children: &Vec<Arc<DOMElement>>)
        ensures
            children@ == self.spec_children(),
    {
        &self.children
    }

    /// A copy of the list of children: the same elements in the same order.
    pub fn copied_children(&self) -> (children: Vec<Arc<DOMElement>>)
        ensures
            children@ == self.spec_children(),
    {
        let mut children: Vec<Arc<DOMElement>> = Vec::new();
        let mut i: usize = 0;
        while i < self.children.len()
            invariant
                0 <= i <= self.children@.len(),
                children@ == self.children@.take(i as int),
            decreases self.children@.len() - i,
        {
            children.push(Arc::clone(&self.children[i]));
            i += 1;
            assert(self.children@.take(i as int) == self.children@.take(i - 1).push(
                self.children@[i - 1],
            ));
        }
        assert(self.children@.take(i as int) == self.children@);
        children
    }

    /// A copy of the list of styles: the same keys and values in the same
    /// order.
    pub fn copied_styles(&self) -> (styles: Vec<(String, String)>)
        ensures
            styles@ == self.spec_styles(),
    {
        let mut styles: Vec<(String, String)> = Vec::new();
        let mut i: usize = 0;
        while i < self.styles.len()
            invariant
                0 <= i <= self.styles@.len(),
                styles@ == self.styles@.take(i as int),
            decreases self.styles@.len() - i,
        {
            let key = self.styles[i].0.clone();
            let value = self.styles[i].1.clone();
            styles.push((key, value));
            i += 1;
            assert(self.styles@.take(i as int) == self.styles@.take(i - 1).push(
                self.styles@[i - 1],
            ));
        }
        assert(self.styles@.take(i as int) == self.styles@);
        styles
    }

    /// Adds `element` as the last child.
    pub fn push_child(&mut self, element: &Arc<DOMElement>)
        ensures
            final(self).spec_children() == old(self).spec_children().push(*element),
            final(self).spec_styles() == old(self).spec_styles(),
            final(self).spec_text_property() == old(self).spec_text_property(),
            final(self).spec_onclick_publisher() == old(self).spec_onclick_publisher(),
    {
        self.children.push(Arc::clone(element));
    }

    /// Adds the style `key: value` as the last style.
    pub fn push_style(&mut self, key: String, value: String)
        ensures
            final(self).spec_styles() == old(self).spec_styles().push((key, value)),
            final(self).spec_children() == old(self).spec_children(),
            final(self).spec_text_property() == old(self).spec_text_property(),
            final(self).spec_onclick_publisher() == old(self).spec_onclick_publisher(),
    {
        self.styles.push((key, value));
    }
}

/// The lock around an element's state: a `std::sync::Mutex`. It is kept
/// opaque, because a state that names its own element's type is a type that
/// contains itself.
#[verifier::external_body]
pub struct StateCell {
    inner: Mutex<DOMElementState>,
}

impl StateCell {
    /// `Mutex::new`: an unlocked mutex around `state`. Nothing is claimed of
    /// the result.
    #[verifier::external_body]
    fn new(state: DOMElementState) -> (cell: Self) {
        StateCell { inner: Mutex::new(state) }
    }

    /// `Mutex::lock`: blocks until the mutex is acquired and returns its
    /// guard, or the poison error. Nothing is claimed of the result. The call
    /// does not return when the calling thread already holds this mutex.
    #[verifier::external_body]
    fn lock<'a>(&'a self) -> (result: LockResult<MutexGuard<'a, DOMElementState>>) {
        self.inner.lock()
    }
}

/// An element of the tree.
///
/// Its kind, its text property and its click publisher are fixed when the
/// element is made. Its children and styles live behind the element's lock,
/// so no contract of an element can speak of them: what each operation does
/// to them is the contract of the operation of the same name on
/// [`DOMElementState`], which the element runs once it holds the lock. With a
/// poisoned lock a write does nothing and a read finds nothing.
pub struct DOMElement {
    element_type: DOMElementType,
    text_property: Option<Arc<Property<Option<String>>>>,
    onclick_publisher: Option<Arc<Publisher<()>>>,
    state: StateCell,
}

impl DOMElement {
    /// The kind of the element.
    pub closed spec fn spec_element_type(&self) -> DOMElementType {
        self.element_type
    }

    /// The property that holds the element's text.
    pub closed spec fn spec_text_property(&self) -> Option<Arc<Property<Option<String>>>> {
        self.text_property
    }

    /// The publisher of the element's clicks.
    pub closed spec fn spec_onclick_publisher(&self) -> Option<Arc<Publisher<()>>> {
        self.onclick_publisher
    }

    /// The element's lock was made around `state`.
    pub closed spec fn made_around(&self, state: DOMElementState) -> bool {
        call_ensures(StateCell::new, (state,), self.state)
    }

    /// The element's lock was made around a state without children and
    /// styles, whose text property and click publisher are the element's.
    pub open spec fn made_bare(&self) -> bool {
        exists|state: DOMElementState|
            {
                &&& state.spec_children() == Seq::<Arc<DOMElement>>::empty()
                &&& state.spec_styles() == Seq::<(String, String)>::empty()
                &&& state.spec_text_property() == self.spec_text_property()
                &&& state.spec_onclick_publisher() == self.spec_onclick_publisher()
                &&& self.made_around(state)
            }
    }

    /// A call of `push_child` that handed `child` to this element has
    /// returned. It carries nothing else: what the call did to the children
    /// is the contract of `DOMElementState::push_child`.
    pub open spec fn adopted(&self, child: Arc<DOMElement>) -> bool {
        call_ensures(DOMElement::push_child, (self, &child), ())
    }

    /// `found` is what a call of `text_property` on this element has
    /// returned. It carries what `text_property` ensures, no more.
    pub open spec fn read_text(&self, found: Option<Arc<Property<Option<String>>>>) -> bool {
        call_ensures(DOMElement::text_property, (self,), found)
    }

    /// `found` is what a call of `onclick_publisher` on this element has
    /// returned. It carries what `onclick_publisher` ensures, no more.
    pub open spec fn read_onclick(&self, found: Option<Arc<Publisher<()>>>) -> bool {
        call_ensures(DOMElement::onclick_publisher, (self,), found)
    }

    /// A call of `push_style` that handed the style `key: value` to this
    /// element has returned. It carries nothing else: what the call did to
    /// the styles is the contract of `DOMElementState::push_style`.
    pub open spec fn styled(&self, key: String, value: String) -> bool {
        call_ensures(DOMElement::push_style, (self, key, value), ())
    }

    /// A new element of kind `element_type`, without children and styles. Its
    /// text property and its click publisher are those of the state that its
    /// lock is made around.
    pub fn new(element_type: DOMElementType) -> (element: Arc<Self>)
        ensures
            element.spec_element_type() == element_type,
            element.spec_text_property().is_some() == element_type.spec_has_text(),
            element.spec_onclick_publisher().is_some() == element_type.spec_has_onclick(),
            element.made_bare(),
    {
        let state = DOMElementState::new(&element_type);
        let text_property = match state.text_property() {
            Some(property) => Some(Arc::clone(property)),
            None => None,
        };
        let onclick_publisher = match state.onclick_publisher() {
            Some(publisher) => Some(Arc::clone(publisher)),
            None => None,
        };
        let ghost first = state;
        let element = Self {
            element_type,
            text_property,
            onclick_publisher,
            state: StateCell::new(state),
        };
        assert(element.made_around(first));
        Arc::new(element)
    }

    /// `given` is what a call of `usable` on this element has returned:
    /// whether its lock was given, which it is unless it is poisoned.
    pub closed spec fn tried(&self, given: bool) -> bool {
        call_ensures(DOMElement::usable, (self,), given)
    }

    /// `found` is what a call of `read_children` on this element has
    /// returned: a copy of the children of the state found behind the lock,
    /// or nothing with a poisoned lock.
    pub closed spec fn children_read(&self, found: Option<Vec<Arc<DOMElement>>>) -> bool {
        call_ensures(DOMElement::read_children, (self,), found)
    }

    /// `taken` is what a call of `hand_child` that was handed `child` on this
    /// element has returned: whether the lock was given, and with it whether
    /// the state behind it has appended `child`.
    pub closed spec fn child_handed(&self, child: Arc<DOMElement>, taken: bool) -> bool {
        call_ensures(DOMElement::hand_child, (self, &child), taken)
    }

    /// `taken` is what a call of `hand_style` that was handed the style
    /// `key: value` on this element has returned: whether the lock was given,
    /// and with it whether the state behind it has appended the style.
    pub closed spec fn style_handed(&self, key: String, value: String, taken: bool) -> bool {
        call_ensures(DOMElement::hand_style, (self, key, value), taken)
    }

    /// `found` is what a call of `read_styles` on this element has returned:
    /// a copy of the styles of the state found behind the lock, or nothing
    /// with a poisoned lock.
    pub closed spec fn styles_read(&self, found: Option<Vec<(String, String)>>) -> bool {
        call_ensures(DOMElement::read_styles, (self,), found)
    }

    /// A copy of the styles of the state behind the lock, as `copied_styles`
    /// makes it; nothing with a poisoned lock.
    fn read_styles(&self) -> (found: Option<Vec<(String, String)>>)
        ensures
            found matches Some(styles) ==> exists|state: DOMElementState|
                styles@ == state.spec_styles(),
    {
        match self.state.lock() {
            Ok(guard) => {
                let state = guard_ref(&guard);
                let styles = state.copied_styles();
                assert(styles@ == state.spec_styles());
                Some(styles)
            },
            Err(_) => None,
        }
    }

    /// Takes the lock and lets it go. Tells whether it was given.
    fn usable(&self) -> (given: bool) {
        match self.state.lock() {
            Ok(_) => true,
            Err(_) => false,
        }
    }

    /// A copy of the children of the state behind the lock, as
    /// `copied_children` makes it; nothing with a poisoned lock.
    fn read_children(&self) -> (found: Option<Vec<Arc<DOMElement>>>)
        ensures
            found matches Some(children) ==> exists|state: DOMElementState|
                children@ == state.spec_children(),
    {
        match self.state.lock() {
            Ok(guard) => {
                let state = guard_ref(&guard);
                let children = state.copied_children();
                assert(children@ == state.spec_children());
                Some(children)
            },
            Err(_) => None,
        }
    }

    /// Hands `child` to the state behind the lock, which appends it. Tells
    /// whether the lock was given.
    fn hand_child(&self, child: &Arc<DOMElement>) -> (taken: bool) {
        match self.state.lock() {
            Ok(mut guard) => {
                guard_mut(&mut guard).push_child(child);
                true
            },
            Err(_) => false,
        }
    }

    /// Hands the style `key: value` to the state behind the lock, which
    /// appends it. Tells whether the lock was given.
    fn hand_style(&self, key: String, value: String) -> (taken: bool) {
        match self.state.lock() {
            Ok(mut guard) => {
                guard_mut(&mut guard).push_style(key, value);
                true
            },
            Err(_) => false,
        }
    }

    /// Adds `element` as the last child: hands it to the state behind the
    /// lock. With a poisoned lock nothing is added.
    pub fn push_child(&self, element: &Arc<DOMElement>)
        ensures
            exists|taken: bool| self.child_handed(*element, taken),
    {
        let taken = self.hand_child(element);
        assert(self.child_handed(*element, taken));
    }

    /// Adds the style `key: value` as the last style: hands it to the state
    /// behind the lock. With a poisoned lock nothing is added.
    pub fn push_style(&self, key: String, value: String)
        ensures
            exists|taken: bool| self.style_handed(key, value, taken),
    {
        let ghost handed = (key, value);
        let taken = self.hand_style(key, value);
        assert(self.style_handed(handed.0, handed.1, taken));
    }

    /// The kind of the element.
    pub fn element_type(&self) -> (element_type: &DOMElementType)
        ensures
            *element_type == self.spec_element_type(),
    {
        &self.element_type
    }

    /// The property that holds the element's text: the one the element was
    /// made with, if its lock is given. With a poisoned lock the answer is
    /// nothing.
    pub fn text_property(&self) -> (property: Option<Arc<Property<Option<String>>>>)
        ensures
            exists|given: bool|
                self.tried(given) && property == if given {
                    self.spec_text_property()
                } else {
                    None
                },
    {
        let given = self.usable();
        let property = if given {
            match &self.text_property {
                Some(property) => Some(Arc::clone(property)),
                None => None,
            }
        } else {
            None
        };
        assert(self.tried(given));
        property
    }

    /// The publisher of the element's clicks: the one the element was made
    /// with, if its lock is given. With a poisoned lock the answer is
    /// nothing.
    pub fn onclick_publisher(&self) -> (publisher: Option<Arc<Publisher<()>>>)
        ensures
            exists|given: bool|
                self.tried(given) && publisher == if given {
                    self.spec_onclick_publisher()
                } else {
                    None
                },
    {
        let given = self.usable();
        let publisher = if given {
            match &self.onclick_publisher {
                Some(publisher) => Some(Arc::clone(publisher)),
                None => None,
            }
        } else {
            None
        };
        assert(self.tried(given));
        publisher
    }

    /// A copy of the styles found behind the lock, as `copied_styles` makes
    /// it; nothing with a poisoned lock.
    pub fn styles(&self) -> (styles: Option<Vec<(String, String)>>)
        ensures
            self.styles_read(styles),
    {
        self.read_styles()
    }

    /// A copy of the children found behind the lock, as `copied_children`
    /// makes it; no children with a poisoned lock.
    pub fn children(&self) -> (children: Vec<Arc<DOMElement>>)
        ensures
            exists|found: Option<Vec<Arc<DOMElement>>>|
                {
                    &&& self.children_read(found)
                    &&& children@ == match found {
                        Some(copy) => copy@,
                        None => Seq::empty(),
                    }
                },
    {
        let found = self.read_children();
        let ghost seen = found;
        let children = match found {
            Some(copy) => copy,
            None => Vec::new(),
        };
        assert(self.children_read(seen));
        children
    }
}

} // verus!

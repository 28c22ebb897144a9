use smelter::{
    Button, DOMContext, DOMDocument, DOMElement, DOMElementState, DOMElementType,
    DeclareElement, DeclareTextManipulate, DeclareTraverse, Division, DocumentBuilder, Element,
    Paragraph, Publish, Publisher, Subscriber,
};
use std::sync::{Arc, Mutex};

#[test]
fn lib_it_works() {
    let mut builder = DocumentBuilder::new();
    let context = &mut builder;
    Element::new(context).children(|context| {
        Element::new(context).children(|_| {});
    });
    let document = builder.build();
    assert_eq!(document.elements().len(), 1);
}

#[test]
fn element_kinds_have_their_tags() {
    assert_eq!(DOMElementType::Div.name(), "div");
    assert_eq!(DOMElementType::Button.name(), "button");
    assert_eq!(DOMElementType::Paragraph.name(), "p");
}

#[test]
fn every_kind_has_text_and_clicks() {
    for kind in [DOMElementType::Div, DOMElementType::Button, DOMElementType::Paragraph] {
        assert!(kind.has_text());
        assert!(kind.has_onclick());
        let element = DOMElement::new(kind);
        assert_eq!(*element.element_type(), kind);
        assert!(element.text_property().is_some());
        assert!(element.onclick_publisher().is_some());
    }
}

#[test]
fn element_state_starts_empty() {
    let state = DOMElementState::new(&DOMElementType::Paragraph);
    assert!(state.children().is_empty());
    assert!(state.styles().is_empty());
    assert!(state.text_property().is_some());
    assert!(state.onclick_publisher().is_some());
    let text = state.text_property().as_ref().unwrap().value();
    assert_eq!(text, Some(None));
}

#[test]
fn element_state_appends_children_and_styles() {
    let mut state = DOMElementState::new(&DOMElementType::Div);
    let first = DOMElement::new(DOMElementType::Button);
    let second = DOMElement::new(DOMElementType::Paragraph);
    state.push_child(&first);
    state.push_child(&second);
    state.push_style("color".to_string(), "red".to_string());
    state.push_style("margin".to_string(), "0".to_string());
    assert_eq!(state.children().len(), 2);
    assert!(Arc::ptr_eq(&state.children()[0], &first));
    assert!(Arc::ptr_eq(&state.children()[1], &second));
    assert_eq!(
        *state.styles(),
        vec![("color".to_string(), "red".to_string()), ("margin".to_string(), "0".to_string())]
    );
}

#[test]
fn element_state_copies_children_and_styles() {
    let mut state = DOMElementState::new(&DOMElementType::Div);
    assert!(state.copied_children().is_empty());
    assert!(state.copied_styles().is_empty());
    let first = DOMElement::new(DOMElementType::Button);
    let second = DOMElement::new(DOMElementType::Paragraph);
    state.push_child(&first);
    state.push_child(&second);
    state.push_style("color".to_string(), "red".to_string());
    state.push_style("margin".to_string(), "0".to_string());
    let children = state.copied_children();
    assert_eq!(children.len(), 2);
    assert!(Arc::ptr_eq(&children[0], &first));
    assert!(Arc::ptr_eq(&children[1], &second));
    assert_eq!(
        state.copied_styles(),
        vec![("color".to_string(), "red".to_string()), ("margin".to_string(), "0".to_string())]
    );
    assert_eq!(state.children().len(), 2);
    assert_eq!(state.styles().len(), 2);
}

#[test]
fn element_keeps_the_endpoints_it_was_made_with() {
    let element = DOMElement::new(DOMElementType::Button);
    let text = element.text_property().unwrap();
    let clicks = element.onclick_publisher().unwrap();
    element.push_style("color".to_string(), "red".to_string());
    element.push_child(&DOMElement::new(DOMElementType::Div));
    assert!(Arc::ptr_eq(&text, &element.text_property().unwrap()));
    assert!(Arc::ptr_eq(&clicks, &element.onclick_publisher().unwrap()));
    text.accept(&Some("seen".to_string()));
    assert_eq!(element.text_property().unwrap().value(), Some(Some("seen".to_string())));
}

#[test]
fn element_appends_children_and_styles() {
    let parent = DOMElement::new(DOMElementType::Div);
    let child = DOMElement::new(DOMElementType::Paragraph);
    assert!(parent.children().is_empty());
    assert_eq!(parent.styles(), Some(vec![]));
    parent.push_child(&child);
    parent.push_style("font-size".to_string(), "12pt".to_string());
    assert_eq!(parent.children().len(), 1);
    assert!(Arc::ptr_eq(&parent.children()[0], &child));
    assert_eq!(parent.styles(), Some(vec![("font-size".to_string(), "12pt".to_string())]));
}

#[test]
fn document_keeps_its_roots() {
    let first = DOMElement::new(DOMElementType::Div);
    let second = DOMElement::new(DOMElementType::Button);
    let document = DOMDocument::new(vec![Arc::clone(&first), Arc::clone(&second)]);
    assert_eq!(document.elements().len(), 2);
    assert!(Arc::ptr_eq(&document.elements()[0], &first));
    assert!(Arc::ptr_eq(&document.elements()[1], &second));
}

#[test]
fn empty_builder_builds_an_empty_document() {
    let document = DocumentBuilder::new().build();
    assert!(document.elements().is_empty());
}

#[test]
fn elements_outside_every_element_become_roots() {
    let mut builder = DocumentBuilder::new();
    let first = builder.create_element(DOMElementType::Div);
    let second = builder.create_element(DOMElementType::Paragraph);
    let document = builder.build();
    assert_eq!(document.elements().len(), 2);
    assert!(Arc::ptr_eq(&document.elements()[0], &first));
    assert!(Arc::ptr_eq(&document.elements()[1], &second));
    assert_eq!(*second.element_type(), DOMElementType::Paragraph);
}

#[test]
fn elements_inside_an_element_become_its_children() {
    let mut builder = DocumentBuilder::new();
    let root = builder.create_element(DOMElementType::Div);
    builder.enter_children(&root);
    let inner = builder.create_element(DOMElementType::Div);
    builder.enter_children(&inner);
    let leaf = builder.create_element(DOMElementType::Button);
    builder.leave_children(&inner);
    let sibling = builder.create_element(DOMElementType::Paragraph);
    builder.leave_children(&root);
    let next_root = builder.create_element(DOMElementType::Div);
    let document = builder.build();
    assert_eq!(document.elements().len(), 2);
    assert!(Arc::ptr_eq(&document.elements()[0], &root));
    assert!(Arc::ptr_eq(&document.elements()[1], &next_root));
    assert_eq!(root.children().len(), 2);
    assert!(Arc::ptr_eq(&root.children()[0], &inner));
    assert!(Arc::ptr_eq(&root.children()[1], &sibling));
    assert_eq!(inner.children().len(), 1);
    assert!(Arc::ptr_eq(&inner.children()[0], &leaf));
    assert!(leaf.children().is_empty());
}

#[test]
fn declarations_nest() {
    let mut builder = DocumentBuilder::new();
    let context = &mut builder;
    Division::new(context).children(|context| {
        Paragraph::new(context).text("Title");
        Division::new(context).children(|context| {
            Button::new(context).text("Press");
        });
    });
    Paragraph::new(context);
    let document = builder.build();
    let roots = document.elements();
    assert_eq!(roots.len(), 2);
    assert_eq!(*roots[0].element_type(), DOMElementType::Div);
    assert_eq!(*roots[1].element_type(), DOMElementType::Paragraph);
    let children = roots[0].children();
    assert_eq!(children.len(), 2);
    assert_eq!(*children[0].element_type(), DOMElementType::Paragraph);
    assert_eq!(*children[1].element_type(), DOMElementType::Div);
    assert_eq!(children[0].text_property().unwrap().value(), Some(Some("Title".to_string())));
    let inner = children[1].children();
    assert_eq!(inner.len(), 1);
    assert_eq!(*inner[0].element_type(), DOMElementType::Button);
    assert_eq!(inner[0].text_property().unwrap().value(), Some(Some("Press".to_string())));
}

#[test]
fn declared_element_is_the_created_one() {
    let mut builder = DocumentBuilder::new();
    let element = Arc::clone(Element::new(&mut builder).element());
    let document = builder.build();
    assert!(Arc::ptr_eq(&document.elements()[0], &element));
    assert_eq!(*element.element_type(), DOMElementType::Div);
}

#[test]
fn context_of_a_declaration_is_its_builder() {
    let mut builder = DocumentBuilder::new();
    let mut declared = Division::new(&mut builder);
    declared.context_mut().create_element(DOMElementType::Button);
    let document = builder.build();
    assert_eq!(document.elements().len(), 2);
}

#[test]
fn styles_are_kept_in_order() {
    let mut builder = DocumentBuilder::new();
    Paragraph::new(&mut builder).style("font-size", "32pt").style("color", "red");
    let document = builder.build();
    assert_eq!(
        document.elements()[0].styles(),
        Some(vec![
            ("font-size".to_string(), "32pt".to_string()),
            ("color".to_string(), "red".to_string())
        ])
    );
}

#[test]
fn button_publishes_its_clicks() {
    let clicks: Arc<Mutex<u64>> = Arc::new(Mutex::new(0));
    let counter = Arc::clone(&clicks);
    let onclick: Arc<Subscriber<()>> = Subscriber::new();
    onclick.sink(move |_| *counter.lock().unwrap() += 1);
    let mut builder = DocumentBuilder::new();
    Button::new(&mut builder).text("Hello world!").publish_onclick(&onclick);
    let document = builder.build();
    let button = &document.elements()[0];
    button.onclick_publisher().unwrap().send(());
    button.onclick_publisher().unwrap().send(());
    assert_eq!(*clicks.lock().unwrap(), 2);
    assert_eq!(button.text_property().unwrap().value(), Some(Some("Hello world!".to_string())));
}

#[test]
fn text_follows_a_publisher() {
    let text_content: Arc<Publisher<Option<String>>> = Publisher::new();
    let mut builder = DocumentBuilder::new();
    Button::new(&mut builder).text("before").subscribe_text(&text_content);
    Paragraph::new(&mut builder).subscribe_text(&text_content);
    let document = builder.build();
    text_content.send(Some("after".to_string()));
    for element in document.elements().iter() {
        assert_eq!(element.text_property().unwrap().value(), Some(Some("after".to_string())));
    }
    text_content.send(None);
    assert_eq!(document.elements()[0].text_property().unwrap().value(), Some(None));
}

#[test]
fn click_sets_the_text_of_another_element() {
    let onclick: Arc<Subscriber<()>> = Subscriber::new();
    let mut builder = DocumentBuilder::new();
    let context = &mut builder;
    Division::new(context).children(|context| {
        let text_content = Publisher::new();
        Paragraph::new(context).text("Smelter").style("font-size", "32pt").subscribe_text(
            &text_content,
        );
        Division::new(context).children(|context| {
            onclick.map(|_| Some(format!("Clicked"))).bind(&text_content);
            Button::new(context).text("Hello world!").style("font-size", "12pt").publish_onclick(
                &onclick,
            );
        });
    });
    let document = builder.build();
    let children = document.elements()[0].children();
    let paragraph = &children[0];
    let button = &children[1].children()[0];
    assert_eq!(paragraph.text_property().unwrap().value(), Some(Some("Smelter".to_string())));
    button.onclick_publisher().unwrap().send(());
    assert_eq!(paragraph.text_property().unwrap().value(), Some(Some("Clicked".to_string())));
    assert_eq!(button.text_property().unwrap().value(), Some(Some("Hello world!".to_string())));
}

#[test]
fn clicks_do_not_keep_their_subscriber_alive() {
    let clicks: Arc<Mutex<u64>> = Arc::new(Mutex::new(0));
    let counter = Arc::clone(&clicks);
    let onclick: Arc<Subscriber<()>> = Subscriber::new();
    onclick.sink(move |_| *counter.lock().unwrap() += 1);
    let mut builder = DocumentBuilder::new();
    Button::new(&mut builder).publish_onclick(&onclick);
    let document = builder.build();
    let button = &document.elements()[0];
    button.onclick_publisher().unwrap().send(());
    drop(onclick);
    button.onclick_publisher().unwrap().send(());
    assert_eq!(*clicks.lock().unwrap(), 1);
}

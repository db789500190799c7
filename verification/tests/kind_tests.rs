//! Behaviour of the kind lattice and the narrowing model.

use minimal::errors::DomError;
use minimal::kinds::kind_is_a;
use minimal::kinds::kind_name;
use minimal::kinds::NodeKind;
use minimal::model::narrow;
use minimal::model::NodeState;

#[test]
fn every_kind_is_itself() {
    let kinds = vec![
        NodeKind::Window,
        NodeKind::Document,
        NodeKind::Element,
        NodeKind::HtmlElement,
        NodeKind::Node,
        NodeKind::NodeList,
        NodeKind::Attribute,
        NodeKind::Location,
    ];
    for k in kinds {
        assert!(kind_is_a(k, k));
    }
}

#[test]
fn html_element_is_an_element_and_a_node() {
    assert!(kind_is_a(NodeKind::HtmlElement, NodeKind::Element));
    assert!(kind_is_a(NodeKind::HtmlElement, NodeKind::Node));
    assert!(kind_is_a(NodeKind::Element, NodeKind::Node));
    assert!(kind_is_a(NodeKind::Document, NodeKind::Node));
    assert!(kind_is_a(NodeKind::Attribute, NodeKind::Node));
}

#[test]
fn narrowing_does_not_widen() {
    assert!(!kind_is_a(NodeKind::Element, NodeKind::HtmlElement));
    assert!(!kind_is_a(NodeKind::Node, NodeKind::Element));
    assert!(!kind_is_a(NodeKind::Window, NodeKind::Node));
    assert!(!kind_is_a(NodeKind::NodeList, NodeKind::Node));
    assert!(!kind_is_a(NodeKind::Location, NodeKind::Node));
}

#[test]
fn kind_names() {
    assert_eq!(kind_name(NodeKind::HtmlElement), "HtmlElement");
    assert_eq!(kind_name(NodeKind::Attribute), "Attr");
    assert_eq!(kind_name(NodeKind::Window), "Window");
}

#[test]
fn narrow_round_trip_yields_the_same_node() {
    let n = NodeState { kind: NodeKind::HtmlElement, classes: "a b".to_string() };
    let as_element = narrow(n, NodeKind::Element).expect("an html-element is an element");
    assert_eq!(as_element.kind, NodeKind::HtmlElement);
    assert_eq!(as_element.classes, "a b");
    let back = narrow(as_element, NodeKind::HtmlElement).expect("the node came from an html-element");
    assert_eq!(back.kind, NodeKind::HtmlElement);
    assert_eq!(back.classes, "a b");
}

#[test]
fn narrow_fails_on_a_kind_mismatch() {
    let n = NodeState { kind: NodeKind::Node, classes: String::new() };
    let r = narrow(n, NodeKind::HtmlElement);
    assert_eq!(r, Err(DomError::NarrowFailed { target: NodeKind::HtmlElement }));
}

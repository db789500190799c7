//! Behaviour of the bulk class operations over the node model.

use minimal::errors::DomError;
use minimal::kinds::NodeKind;
use minimal::model::add_list_class;
use minimal::model::remove_list_class;
use minimal::model::NodeState;

fn html_node(classes: &str) -> NodeState {
    NodeState { kind: NodeKind::HtmlElement, classes: classes.to_string() }
}

#[test]
fn add_list_class_updates_every_member_in_order() {
    let mut nodes = vec![html_node(""), html_node("x"), html_node("a")];
    let r = add_list_class(&mut nodes, "x");
    assert_eq!(r, Ok(()));
    assert_eq!(nodes[0].classes, " x");
    // The append is unconditional: a member already carrying the name gets
    // a second copy.
    assert_eq!(nodes[1].classes, "x x");
    assert_eq!(nodes[2].classes, "a x");
}

#[test]
fn add_list_class_stops_at_the_first_narrowing_failure() {
    let mut nodes = vec![
        html_node("a"),
        NodeState { kind: NodeKind::Node, classes: String::new() },
        html_node("b"),
    ];
    let r = add_list_class(&mut nodes, "x");
    assert_eq!(r, Err(DomError::NarrowFailed { target: NodeKind::HtmlElement }));
    // The member before the failure was already mutated; the failing member
    // and the one after it were never touched.
    assert_eq!(nodes[0].classes, "a x");
    assert_eq!(nodes[1].classes, "");
    assert_eq!(nodes[2].classes, "b");
}

#[test]
fn remove_list_class_updates_every_member_in_order() {
    let mut nodes = vec![html_node("a x"), html_node("x"), html_node("b x a")];
    let r = remove_list_class(&mut nodes, "x");
    assert_eq!(r, Ok(()));
    assert_eq!(nodes[0].classes, "a");
    // The bare first token has no leading space, so the removal pattern
    // misses although the membership guard saw the class.
    assert_eq!(nodes[1].classes, "x");
    assert_eq!(nodes[2].classes, "b a");
}

#[test]
fn remove_list_class_stops_at_the_first_narrowing_failure() {
    let mut nodes = vec![
        html_node("a x"),
        NodeState { kind: NodeKind::Document, classes: "a x".to_string() },
        html_node("b x"),
    ];
    let r = remove_list_class(&mut nodes, "x");
    assert_eq!(r, Err(DomError::NarrowFailed { target: NodeKind::HtmlElement }));
    assert_eq!(nodes[0].classes, "a");
    assert_eq!(nodes[1].classes, "a x");
    assert_eq!(nodes[2].classes, "b x");
}

#[test]
fn node_state_class_operations_compose() {
    let mut n = html_node("x");
    assert!(n.has_class("x"));
    n.toggle_class("x");
    // The removal arm was taken and missed: the attribute is unchanged.
    assert_eq!(n.classes, "x");
    n.add_class("y");
    assert_eq!(n.classes, "x y");
    n.remove_class("y");
    assert_eq!(n.classes, "x");
    assert!(!n.has_class("y"));
}

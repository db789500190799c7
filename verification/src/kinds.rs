//! The closed set of handle kinds and the narrowing relation between them.
//!
//! Every handle the library touches denotes an entity of one of these kinds.
//! Narrowing a handle to a more specific kind is a checked, fallible cast:
//! it succeeds exactly when the concrete kind is a subkind of the target.

use vstd::prelude::*;

verus! {

/// The concrete kind of a document-object-model entity.
#[derive(Clone, Copy, PartialEq, Eq, Structural, Debug)]
pub enum NodeKind {
    Window,
    Document,
    Element,
    HtmlElement,
    Node,
    NodeList,
    Attribute,
    Location,
}

/// The inheritance relation among the kinds: a handle whose concrete kind is
/// `c` may be used where a handle of kind `t` is asked for. An html-element
/// is an element; elements, documents and attributes are nodes; windows,
/// node lists and locations stand alone.
pub open spec fn is_subkind(c: NodeKind, t: NodeKind) -> bool {
    c == t || (c == NodeKind::HtmlElement && t == NodeKind::Element) || ((c
        == NodeKind::HtmlElement || c == NodeKind::Element || c == NodeKind::Document || c
        == NodeKind::Attribute) && t == NodeKind::Node)
}

/// The capability check behind every narrowing operation.
pub fn kind_is_a(c: NodeKind, t: NodeKind) -> (b: bool)
    ensures
        b == is_subkind(c, t),
{
    c == t || (c == NodeKind::HtmlElement && t == NodeKind::Element) || ((c
        == NodeKind::HtmlElement || c == NodeKind::Element || c == NodeKind::Document || c
        == NodeKind::Attribute) && t == NodeKind::Node)
}

/// The label of a kind, for failure messages.
pub open spec fn kind_label(k: NodeKind) -> Seq<char> {
    match k {
        NodeKind::Window => "Window"@,
        NodeKind::Document => "Document"@,
        NodeKind::Element => "Element"@,
        NodeKind::HtmlElement => "HtmlElement"@,
        NodeKind::Node => "Node"@,
        NodeKind::NodeList => "NodeList"@,
        NodeKind::Attribute => "Attr"@,
        NodeKind::Location => "Location"@,
    }
}

/// The label of a kind as a string slice.
pub fn kind_name(k: NodeKind) -> (r: &'static str)
    ensures
        r@ == kind_label(k),
{
    match k {
        NodeKind::Window => "Window",
        NodeKind::Document => "Document",
        NodeKind::Element => "Element",
        NodeKind::HtmlElement => "HtmlElement",
        NodeKind::Node => "Node",
        NodeKind::NodeList => "NodeList",
        NodeKind::Attribute => "Attr",
        NodeKind::Location => "Location",
    }
}

/// The narrowing relation is transitive: what counts as an html-element also
/// counts as an element, and through it as a node.
pub proof fn lemma_subkind_transitive(a: NodeKind, b: NodeKind, c: NodeKind)
    requires
        is_subkind(a, b),
        is_subkind(b, c),
    ensures
        is_subkind(a, c),
{
}

} // verus!

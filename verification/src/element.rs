//! Operations on an element handle: class manipulation, attribute access,
//! tree navigation and narrowing.
//!
//! Each operation performs the one native call it wraps and reports the
//! failure as the exact condition, in place of an abort.

use vstd::prelude::*;
use web_sys::Attr;
use web_sys::Element;
use web_sys::HtmlElement;
use web_sys::HtmlSlotElement;
use web_sys::Node;
use web_sys::NodeList;
use crate::classes::class_add;
use crate::classes::class_contains;
use crate::classes::class_remove;
use crate::classes::class_toggle;
use crate::errors::DomError;
use crate::errors::require;
use crate::kinds::NodeKind;
use crate::sys;
use crate::sys::ElementOutcome;

verus! {

/// Turn a single-match query outcome into the found element or the exact
/// failure: no match and a rejected selector are told apart, both naming
/// the selector text.
pub fn require_match(q: ElementOutcome, selector: &str) -> (r: Result<Element, DomError>)
    ensures
        q matches ElementOutcome::Found(e) ==> r == Ok::<Element, DomError>(e),
        q is Absent ==> (r matches Err(e) && e matches DomError::NoSelectorMatch {
            selector: s,
        } && s@ == selector@),
        q is Rejected ==> (r matches Err(e) && e matches DomError::InvalidSelector {
            selector: s,
        } && s@ == selector@),
{
    match q {
        ElementOutcome::Found(e) => Ok(e),
        ElementOutcome::Absent => Err(
            DomError::NoSelectorMatch { selector: selector.to_owned() },
        ),
        ElementOutcome::Rejected => Err(
            DomError::InvalidSelector { selector: selector.to_owned() },
        ),
    }
}

/// Narrow the element to an html-element; fails exactly when the concrete
/// native type is not an html-element subtype.
pub fn to_html(e: &Element) -> (r: Result<HtmlElement, DomError>)
    ensures
        r matches Err(err) ==> err == (DomError::NarrowFailed { target: NodeKind::HtmlElement }),
{
    require(sys::el_dyn_html(e), DomError::NarrowFailed { target: NodeKind::HtmlElement })
}

/// True when the element's class attribute contains the name as a
/// substring: the membership test is not tokenized. The empty name is a
/// substring of every attribute, so it always matches; the rest of the
/// result follows the live attribute, as `class_contains` states.
pub fn has_class(e: &Element, name: &str) -> (r: bool)
    ensures
        name@.len() == 0 ==> r,
{
    let attr = sys::el_class_name(e);
    let r = class_contains(attr.as_str(), name);
    proof {
        if name@.len() == 0 {
            assert(name@ =~= Seq::<char>::empty());
            crate::classes::lemma_empty_name_matches(attr@);
        }
    }
    r
}

/// Append a space and the name to the element's class attribute,
/// unconditionally: no duplicate check.
pub fn add_class(e: &Element, name: &str) {
    let attr = sys::el_class_name(e);
    let next = class_add(attr.as_str(), name);
    sys::el_set_class_name(e, next.as_str());
}

/// Delete the first occurrence of the name prefixed by a space from the
/// element's class attribute; when that pattern is absent the attribute
/// stays as it is.
pub fn remove_class(e: &Element, name: &str) {
    let attr = sys::el_class_name(e);
    let next = class_remove(attr.as_str(), name);
    sys::el_set_class_name(e, next.as_str());
}

/// Remove the class when present in the substring sense, append it
/// otherwise.
pub fn toggle_class(e: &Element, name: &str) {
    let attr = sys::el_class_name(e);
    let next = class_toggle(attr.as_str(), name);
    sys::el_set_class_name(e, next.as_str());
}

/// The element's namespace uri.
pub fn get_namespace_uri(e: &Element) -> (r: Result<String, DomError>)
    ensures
        r matches Err(err) ==> err matches DomError::MissingProperty { property } && property@
            == "namespace"@,
{
    require(
        sys::el_namespace_uri(e),
        DomError::MissingProperty { property: String::from_str("namespace") },
    )
}

/// The element's namespace prefix.
pub fn get_pref(e: &Element) -> (r: Result<String, DomError>)
    ensures
        r matches Err(err) ==> err matches DomError::MissingProperty { property } && property@
            == "prefix"@,
{
    require(
        sys::el_prefix(e),
        DomError::MissingProperty { property: String::from_str("prefix") },
    )
}

/// The slot the element is assigned to.
pub fn get_assigned_slot(e: &Element) -> (r: Result<HtmlSlotElement, DomError>)
    ensures
        r matches Err(err) ==> err matches DomError::MissingProperty { property } && property@
            == "assigned slot"@,
{
    require(
        sys::el_assigned_slot(e),
        DomError::MissingProperty { property: String::from_str("assigned slot") },
    )
}

/// First descendant matching the selector, as an element.
pub fn query_selector_el(e: &Element, selector: &str) -> (r: Result<Element, DomError>)
    ensures
        r matches Err(err) ==> (err matches DomError::NoSelectorMatch { selector: s } && s@
            == selector@) || (err matches DomError::InvalidSelector { selector: s } && s@
            == selector@),
{
    require_match(sys::el_query_selector(e, selector), selector)
}

/// First descendant matching the selector, narrowed to an html-element.
pub fn query_selector_html(e: &Element, selector: &str) -> (r: Result<HtmlElement, DomError>)
    ensures
        r matches Err(err) ==> (err matches DomError::NoSelectorMatch { selector: s } && s@
            == selector@) || (err matches DomError::InvalidSelector { selector: s } && s@
            == selector@) || err == (DomError::NarrowFailed { target: NodeKind::HtmlElement }),
{
    match query_selector_el(e, selector) {
        Ok(found) => to_html(&found),
        Err(err) => Err(err),
    }
}

/// All descendants matching the selector, in tree order; an empty list when
/// none match, a failure only when the selector is rejected.
pub fn query_selector_list(e: &Element, selector: &str) -> (r: Result<NodeList, DomError>)
    ensures
        r matches Err(err) ==> err matches DomError::InvalidSelector { selector: s } && s@
            == selector@,
{
    require(
        sys::el_query_selector_all(e, selector),
        DomError::InvalidSelector { selector: selector.to_owned() },
    )
}

/// The element's parent, as an element.
pub fn parent_element_el(e: &Element) -> (r: Result<Element, DomError>)
    ensures
        r matches Err(err) ==> err matches DomError::MissingProperty { property } && property@
            == "parent element"@,
{
    require(
        sys::el_parent_element(e),
        DomError::MissingProperty { property: String::from_str("parent element") },
    )
}

/// The element's parent, narrowed to an html-element.
pub fn parent_element_html(e: &Element) -> (r: Result<HtmlElement, DomError>)
    ensures
        r matches Err(err) ==> (err matches DomError::MissingProperty { property } && property@
            == "parent element"@) || err == (DomError::NarrowFailed {
            target: NodeKind::HtmlElement,
        }),
{
    match parent_element_el(e) {
        Ok(parent) => to_html(&parent),
        Err(err) => Err(err),
    }
}

/// The element's first child of any node type, narrowed to an element.
pub fn first_child_el(e: &Element) -> (r: Result<Element, DomError>)
    ensures
        r matches Err(err) ==> (err matches DomError::MissingProperty { property } && property@
            == "first child"@) || err == (DomError::NarrowFailed { target: NodeKind::Element }),
{
    match require(
        sys::el_first_child(e),
        DomError::MissingProperty { property: String::from_str("first child") },
    ) {
        Ok(child) => crate::node::to_el(&child),
        Err(err) => Err(err),
    }
}

/// The element's first child of any node type, narrowed to an html-element.
pub fn first_child_html(e: &Element) -> (r: Result<HtmlElement, DomError>)
    ensures
        r matches Err(err) ==> (err matches DomError::MissingProperty { property } && property@
            == "first child"@) || err == (DomError::NarrowFailed {
            target: NodeKind::HtmlElement,
        }),
{
    match require(
        sys::el_first_child(e),
        DomError::MissingProperty { property: String::from_str("first child") },
    ) {
        Ok(child) => crate::node::to_html(&child),
        Err(err) => Err(err),
    }
}

/// The element's last child of any node type, narrowed to an element.
pub fn last_child_el(e: &Element) -> (r: Result<Element, DomError>)
    ensures
        r matches Err(err) ==> (err matches DomError::MissingProperty { property } && property@
            == "last child"@) || err == (DomError::NarrowFailed { target: NodeKind::Element }),
{
    match require(
        sys::el_last_child(e),
        DomError::MissingProperty { property: String::from_str("last child") },
    ) {
        Ok(child) => crate::node::to_el(&child),
        Err(err) => Err(err),
    }
}

/// The element's last child of any node type, narrowed to an html-element.
pub fn last_child_html(e: &Element) -> (r: Result<HtmlElement, DomError>)
    ensures
        r matches Err(err) ==> (err matches DomError::MissingProperty { property } && property@
            == "last child"@) || err == (DomError::NarrowFailed {
            target: NodeKind::HtmlElement,
        }),
{
    match require(
        sys::el_last_child(e),
        DomError::MissingProperty { property: String::from_str("last child") },
    ) {
        Ok(child) => crate::node::to_html(&child),
        Err(err) => Err(err),
    }
}

/// The element's previous sibling of any node type, narrowed to an element.
pub fn prev_sibling_el(e: &Element) -> (r: Result<Element, DomError>)
    ensures
        r matches Err(err) ==> (err matches DomError::MissingProperty { property } && property@
            == "previous sibling"@) || err == (DomError::NarrowFailed {
            target: NodeKind::Element,
        }),
{
    match require(
        sys::el_previous_sibling(e),
        DomError::MissingProperty { property: String::from_str("previous sibling") },
    ) {
        Ok(sibling) => crate::node::to_el(&sibling),
        Err(err) => Err(err),
    }
}

/// The element's previous sibling of any node type, narrowed to an
/// html-element.
pub fn prev_sibling_html(e: &Element) -> (r: Result<HtmlElement, DomError>)
    ensures
        r matches Err(err) ==> (err matches DomError::MissingProperty { property } && property@
            == "previous sibling"@) || err == (DomError::NarrowFailed {
            target: NodeKind::HtmlElement,
        }),
{
    match require(
        sys::el_previous_sibling(e),
        DomError::MissingProperty { property: String::from_str("previous sibling") },
    ) {
        Ok(sibling) => crate::node::to_html(&sibling),
        Err(err) => Err(err),
    }
}

/// The element's first child that is itself an element.
pub fn first_element_child_el(e: &Element) -> (r: Result<Element, DomError>)
    ensures
        r matches Err(err) ==> err matches DomError::MissingProperty { property } && property@
            == "first element child"@,
{
    require(
        sys::el_first_element_child(e),
        DomError::MissingProperty { property: String::from_str("first element child") },
    )
}

/// The element's last child that is itself an element.
pub fn last_element_child_el(e: &Element) -> (r: Result<Element, DomError>)
    ensures
        r matches Err(err) ==> err matches DomError::MissingProperty { property } && property@
            == "last element child"@,
{
    require(
        sys::el_last_element_child(e),
        DomError::MissingProperty { property: String::from_str("last element child") },
    )
}

/// The element's next sibling that is itself an element.
pub fn next_element_sibling_el(e: &Element) -> (r: Result<Element, DomError>)
    ensures
        r matches Err(err) ==> err matches DomError::MissingProperty { property } && property@
            == "next element sibling"@,
{
    require(
        sys::el_next_element_sibling(e),
        DomError::MissingProperty { property: String::from_str("next element sibling") },
    )
}

/// The element's previous sibling that is itself an element.
pub fn prev_element_sibling_el(e: &Element) -> (r: Result<Element, DomError>)
    ensures
        r matches Err(err) ==> err matches DomError::MissingProperty { property } && property@
            == "previous element sibling"@,
{
    require(
        sys::el_previous_element_sibling(e),
        DomError::MissingProperty { property: String::from_str("previous element sibling") },
    )
}

/// The element's first element child, narrowed to an html-element.
pub fn first_element_child_html(e: &Element) -> (r: Result<HtmlElement, DomError>)
    ensures
        r matches Err(err) ==> (err matches DomError::MissingProperty { property } && property@
            == "first element child"@) || err == (DomError::NarrowFailed {
            target: NodeKind::HtmlElement,
        }),
{
    match first_element_child_el(e) {
        Ok(child) => to_html(&child),
        Err(err) => Err(err),
    }
}

/// The element's last element child, narrowed to an html-element.
pub fn last_element_child_html(e: &Element) -> (r: Result<HtmlElement, DomError>)
    ensures
        r matches Err(err) ==> (err matches DomError::MissingProperty { property } && property@
            == "last element child"@) || err == (DomError::NarrowFailed {
            target: NodeKind::HtmlElement,
        }),
{
    match last_element_child_el(e) {
        Ok(child) => to_html(&child),
        Err(err) => Err(err),
    }
}

/// The element's next element sibling, narrowed to an html-element.
pub fn next_element_sibling_html(e: &Element) -> (r: Result<HtmlElement, DomError>)
    ensures
        r matches Err(err) ==> (err matches DomError::MissingProperty { property } && property@
            == "next element sibling"@) || err == (DomError::NarrowFailed {
            target: NodeKind::HtmlElement,
        }),
{
    match next_element_sibling_el(e) {
        Ok(sibling) => to_html(&sibling),
        Err(err) => Err(err),
    }
}

/// The element's previous element sibling, narrowed to an html-element.
pub fn prev_element_sibling_html(e: &Element) -> (r: Result<HtmlElement, DomError>)
    ensures
        r matches Err(err) ==> (err matches DomError::MissingProperty { property } && property@
            == "previous element sibling"@) || err == (DomError::NarrowFailed {
            target: NodeKind::HtmlElement,
        }),
{
    match prev_element_sibling_el(e) {
        Ok(sibling) => to_html(&sibling),
        Err(err) => Err(err),
    }
}

/// The nearest inclusive ancestor matching the selector, as an element.
pub fn closest_el(e: &Element, selector: &str) -> (r: Result<Element, DomError>)
    ensures
        r matches Err(err) ==> (err matches DomError::NoSelectorMatch { selector: s } && s@
            == selector@) || (err matches DomError::InvalidSelector { selector: s } && s@
            == selector@),
{
    require_match(sys::el_closest(e, selector), selector)
}

/// The nearest inclusive ancestor matching the selector, narrowed to an
/// html-element.
pub fn closest_html(e: &Element, selector: &str) -> (r: Result<HtmlElement, DomError>)
    ensures
        r matches Err(err) ==> (err matches DomError::NoSelectorMatch { selector: s } && s@
            == selector@) || (err matches DomError::InvalidSelector { selector: s } && s@
            == selector@) || err == (DomError::NarrowFailed { target: NodeKind::HtmlElement }),
{
    match closest_el(e, selector) {
        Ok(found) => to_html(&found),
        Err(err) => Err(err),
    }
}

/// The value of the named attribute; the failure names the attribute.
pub fn get_attr(e: &Element, name: &str) -> (r: Result<String, DomError>)
    ensures
        r matches Err(err) ==> err matches DomError::MissingProperty { property } && property@
            == name@,
{
    require(
        sys::el_get_attribute(e, name),
        DomError::MissingProperty { property: name.to_owned() },
    )
}

/// The attribute node of the named attribute.
pub fn get_attr_node(e: &Element, name: &str) -> (r: Result<Attr, DomError>)
    ensures
        r matches Err(err) ==> err matches DomError::MissingProperty { property } && property@
            == name@,
{
    require(
        sys::el_get_attribute_node(e, name),
        DomError::MissingProperty { property: name.to_owned() },
    )
}

/// The value of the namespace-qualified attribute; the failure names the
/// local name.
pub fn get_attr_ns(e: &Element, namespace: &str, localname: &str) -> (r: Result<String, DomError>)
    ensures
        r matches Err(err) ==> err matches DomError::MissingProperty { property } && property@
            == localname@,
{
    require(
        sys::el_get_attribute_ns(e, namespace, localname),
        DomError::MissingProperty { property: localname.to_owned() },
    )
}

/// Toggle the named attribute; the resulting presence state, or the failure
/// when the native call is rejected.
pub fn toggle_attr(e: &Element, name: &str) -> (r: Result<bool, DomError>)
    ensures
        r matches Err(err) ==> err matches DomError::OperationRejected { operation } && operation@
            == "toggleAttribute"@,
{
    require(
        sys::el_toggle_attribute(e, name),
        DomError::OperationRejected { operation: String::from_str("toggleAttribute") },
    )
}

/// Remove the named attribute; a failure only when the native removal call
/// itself errors, independent of whether the attribute existed.
pub fn remove_attr(e: &Element, name: &str) -> (r: Result<(), DomError>)
    ensures
        r matches Err(err) ==> err matches DomError::OperationRejected { operation } && operation@
            == "removeAttribute"@,
{
    if sys::el_remove_attribute(e, name) {
        Ok(())
    } else {
        Err(DomError::OperationRejected { operation: String::from_str("removeAttribute") })
    }
}

/// Whether the element itself matches the selector.
pub fn has_match(e: &Element, selector: &str) -> (r: Result<bool, DomError>)
    ensures
        r matches Err(err) ==> err matches DomError::InvalidSelector { selector: s } && s@
            == selector@,
{
    require(
        sys::el_matches(e, selector),
        DomError::InvalidSelector { selector: selector.to_owned() },
    )
}

/// The element's node value.
pub fn get_node_value(e: &Element) -> (r: Result<String, DomError>)
    ensures
        r matches Err(err) ==> err matches DomError::MissingProperty { property } && property@
            == "node value"@,
{
    require(
        sys::el_node_value(e),
        DomError::MissingProperty { property: String::from_str("node value") },
    )
}

/// The element's text content.
pub fn get_text_content(e: &Element) -> (r: Result<String, DomError>)
    ensures
        r matches Err(err) ==> err matches DomError::MissingProperty { property } && property@
            == "text content"@,
{
    require(
        sys::el_text_content(e),
        DomError::MissingProperty { property: String::from_str("text content") },
    )
}

/// Append a node as the element's last child; the appended node, or the
/// failure when the tree rejects the insertion.
pub fn app_child(e: &Element, node: &Node) -> (r: Result<Node, DomError>)
    ensures
        r matches Err(err) ==> err matches DomError::OperationRejected { operation } && operation@
            == "appendChild"@,
{
    require(
        sys::el_append_child(e, node),
        DomError::OperationRejected { operation: String::from_str("appendChild") },
    )
}

/// Insert an element adjacent to this one at the given position keyword;
/// the inserted element, or the failure when the keyword is invalid or the
/// tree rejects the insertion.
pub fn insert_adj_el(e: &Element, position: &str, element: &Element) -> (r: Result<
    Element,
    DomError,
>)
    ensures
        r matches Err(err) ==> err matches DomError::OperationRejected { operation } && operation@
            == "insertAdjacentElement"@,
{
    match sys::el_insert_adjacent_element(e, position, element) {
        ElementOutcome::Found(inserted) => Ok(inserted),
        ElementOutcome::Absent => Err(
            DomError::OperationRejected { operation: String::from_str("insertAdjacentElement") },
        ),
        ElementOutcome::Rejected => Err(
            DomError::OperationRejected { operation: String::from_str("insertAdjacentElement") },
        ),
    }
}

} // verus!

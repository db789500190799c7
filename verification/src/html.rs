//! Operations on an html-element handle: the refinement of the element
//! surface, plus inline-style access.

use vstd::prelude::*;
use web_sys::Element;
use web_sys::HtmlElement;
use web_sys::NodeList;
use crate::element;
use crate::errors::DomError;
use crate::errors::require;
use crate::kinds::NodeKind;
use crate::sys;

verus! {

/// Widen the html-element to an element: the cast cannot fail, and the
/// result references the same underlying node.
pub fn to_el(h: &HtmlElement) -> Element {
    sys::html_to_element(h)
}

/// True when the html-element's class attribute contains the name as a
/// substring; the empty name always matches.
pub fn has_class(h: &HtmlElement, name: &str) -> (r: bool)
    ensures
        name@.len() == 0 ==> r,
{
    element::has_class(sys::html_as_element(h), name)
}

/// Append a space and the name to the html-element's class attribute,
/// unconditionally.
pub fn add_class(h: &HtmlElement, name: &str) {
    element::add_class(sys::html_as_element(h), name)
}

/// Delete the first occurrence of the spaced name from the html-element's
/// class attribute, or leave it unchanged when that pattern is absent.
pub fn remove_class(h: &HtmlElement, name: &str) {
    element::remove_class(sys::html_as_element(h), name)
}

/// The nearest positioned ancestor, as an element.
pub fn offset_parent_el(h: &HtmlElement) -> (r: Result<Element, DomError>)
    ensures
        r matches Err(err) ==> err matches DomError::MissingProperty { property } && property@
            == "offset parent"@,
{
    require(
        sys::html_offset_parent(h),
        DomError::MissingProperty { property: String::from_str("offset parent") },
    )
}

/// The nearest positioned ancestor, narrowed to an html-element.
pub fn offset_parent_html(h: &HtmlElement) -> (r: Result<HtmlElement, DomError>)
    ensures
        r matches Err(err) ==> (err matches DomError::MissingProperty { property } && property@
            == "offset parent"@) || err == (DomError::NarrowFailed {
            target: NodeKind::HtmlElement,
        }),
{
    match offset_parent_el(h) {
        Ok(parent) => element::to_html(&parent),
        Err(err) => Err(err),
    }
}

/// Set one property on the element's inline style; a failure when the
/// style engine rejects the property name or value.
pub fn set_prop(h: &HtmlElement, property: &str, value: &str) -> (r: Result<(), DomError>)
    ensures
        r matches Err(err) ==> err matches DomError::OperationRejected { operation } && operation@
            == "setProperty"@,
{
    let style = sys::html_style(h);
    if sys::style_set_property(&style, property, value) {
        Ok(())
    } else {
        Err(DomError::OperationRejected { operation: String::from_str("setProperty") })
    }
}

/// The value of one property of the element's inline style.
pub fn get_prop(h: &HtmlElement, property: &str) -> (r: Result<String, DomError>)
    ensures
        r matches Err(err) ==> err matches DomError::OperationRejected { operation } && operation@
            == "getPropertyValue"@,
{
    let style = sys::html_style(h);
    require(
        sys::style_get_property(&style, property),
        DomError::OperationRejected { operation: String::from_str("getPropertyValue") },
    )
}

/// First descendant matching the selector, narrowed to an html-element.
pub fn query_selector_html(h: &HtmlElement, selector: &str) -> (r: Result<HtmlElement, DomError>)
    ensures
        r matches Err(err) ==> (err matches DomError::NoSelectorMatch { selector: s } && s@
            == selector@) || (err matches DomError::InvalidSelector { selector: s } && s@
            == selector@) || err == (DomError::NarrowFailed { target: NodeKind::HtmlElement }),
{
    element::query_selector_html(sys::html_as_element(h), selector)
}

/// All descendants matching the selector, in tree order; an empty list when
/// none match.
pub fn query_selector_list(h: &HtmlElement, selector: &str) -> (r: Result<NodeList, DomError>)
    ensures
        r matches Err(err) ==> err matches DomError::InvalidSelector { selector: s } && s@
            == selector@,
{
    element::query_selector_list(sys::html_as_element(h), selector)
}

/// The nearest inclusive ancestor matching the selector, narrowed to an
/// html-element.
pub fn closest_html(h: &HtmlElement, selector: &str) -> (r: Result<HtmlElement, DomError>)
    ensures
        r matches Err(err) ==> (err matches DomError::NoSelectorMatch { selector: s } && s@
            == selector@) || (err matches DomError::InvalidSelector { selector: s } && s@
            == selector@) || err == (DomError::NarrowFailed { target: NodeKind::HtmlElement }),
{
    element::closest_html(sys::html_as_element(h), selector)
}

/// The html-element's parent, narrowed to an html-element.
pub fn parent_element_html(h: &HtmlElement) -> (r: Result<HtmlElement, DomError>)
    ensures
        r matches Err(err) ==> (err matches DomError::MissingProperty { property } && property@
            == "parent element"@) || err == (DomError::NarrowFailed {
            target: NodeKind::HtmlElement,
        }),
{
    element::parent_element_html(sys::html_as_element(h))
}

} // verus!

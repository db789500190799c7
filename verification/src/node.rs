//! Narrowing a generic node handle to an element or an html-element.

use vstd::prelude::*;
use web_sys::Element;
use web_sys::HtmlElement;
use web_sys::Node;
use crate::errors::DomError;
use crate::errors::require;
use crate::kinds::NodeKind;
use crate::sys;

verus! {

/// Narrow a node to an element: a checked, non-owning cast that fails
/// exactly when the underlying object is not an element.
pub fn to_el(n: &Node) -> (r: Result<Element, DomError>)
    ensures
        r matches Err(e) ==> e == (DomError::NarrowFailed { target: NodeKind::Element }),
{
    require(sys::node_dyn_element(n), DomError::NarrowFailed { target: NodeKind::Element })
}

/// Narrow a node to an html-element: a checked, non-owning cast that fails
/// exactly when the underlying object is not an html-element.
pub fn to_html(n: &Node) -> (r: Result<HtmlElement, DomError>)
    ensures
        r matches Err(e) ==> e == (DomError::NarrowFailed { target: NodeKind::HtmlElement }),
{
    require(sys::node_dyn_html(n), DomError::NarrowFailed { target: NodeKind::HtmlElement })
}

} // verus!

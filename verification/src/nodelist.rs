//! Operations on a node-list handle: bounds-checked retrieval with
//! narrowing, and bulk class mutation in index order.
//!
//! The bulk walks mirror the verified list operations of the model module:
//! members are visited at indices zero up to the length, each narrowed to
//! an html-element first, and the first failure stops the walk with the
//! earlier members already mutated.

use vstd::prelude::*;
use web_sys::Element;
use web_sys::HtmlElement;
use web_sys::Node;
use web_sys::NodeList;
use crate::errors::DomError;
use crate::errors::require;
use crate::html;
use crate::kinds::NodeKind;
use crate::node;
use crate::sys;

verus! {

/// The list member at the index; the failure reports the offending index.
pub fn get_node(l: &NodeList, index: u32) -> (r: Result<Node, DomError>)
    ensures
        r matches Err(err) ==> err == (DomError::IndexOutOfRange { index }),
{
    require(sys::list_item(l, index), DomError::IndexOutOfRange { index })
}

/// The list member at the index, narrowed to an element.
pub fn get_el(l: &NodeList, index: u32) -> (r: Result<Element, DomError>)
    ensures
        r matches Err(err) ==> err == (DomError::IndexOutOfRange { index }) || err == (
        DomError::NarrowFailed { target: NodeKind::Element }),
{
    match get_node(l, index) {
        Ok(member) => node::to_el(&member),
        Err(err) => Err(err),
    }
}

/// The list member at the index, narrowed to an html-element.
pub fn get_html(l: &NodeList, index: u32) -> (r: Result<HtmlElement, DomError>)
    ensures
        r matches Err(err) ==> err == (DomError::IndexOutOfRange { index }) || err == (
        DomError::NarrowFailed { target: NodeKind::HtmlElement }),
{
    match get_node(l, index) {
        Ok(member) => node::to_html(&member),
        Err(err) => Err(err),
    }
}

/// Add a class to every member of the list, in index order: each member is
/// narrowed to an html-element and gets the unconditional append, duplicate
/// or not. The first member that cannot be retrieved or narrowed stops the
/// walk, with the earlier members already mutated and the later ones never
/// visited.
pub fn add_list_class(l: &NodeList, name: &str) -> (r: Result<(), DomError>)
    ensures
        r matches Err(err) ==> (err matches DomError::IndexOutOfRange { index: _ }) || err == (
        DomError::NarrowFailed { target: NodeKind::HtmlElement }),
{
    let n = sys::list_length(l);
    let mut i: u32 = 0;
    while i < n
        invariant
            0 <= i <= n,
        decreases n - i,
    {
        match get_html(l, i) {
            Ok(member) => {
                html::add_class(&member, name);
            },
            Err(err) => {
                return Err(err);
            },
        }
        i += 1;
    }
    Ok(())
}

/// Remove a class from every member of the list, in index order; a member
/// that does not carry the name in the substring sense is left alone. The
/// walk stops at the first retrieval or narrowing failure, as the add does.
pub fn remove_list_class(l: &NodeList, name: &str) -> (r: Result<(), DomError>)
    ensures
        r matches Err(err) ==> (err matches DomError::IndexOutOfRange { index: _ }) || err == (
        DomError::NarrowFailed { target: NodeKind::HtmlElement }),
{
    let n = sys::list_length(l);
    let mut i: u32 = 0;
    while i < n
        invariant
            0 <= i <= n,
        decreases n - i,
    {
        match get_html(l, i) {
            Ok(member) => {
                if html::has_class(&member, name) {
                    html::remove_class(&member, name);
                }
            },
            Err(err) => {
                return Err(err);
            },
        }
        i += 1;
    }
    Ok(())
}

} // verus!

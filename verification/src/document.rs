//! Operations on the document handle: element lookup, location-derived
//! accessors, and body replacement.

use vstd::prelude::*;
use web_sys::Document;
use web_sys::Element;
use web_sys::HtmlElement;
use web_sys::Location;
use web_sys::NodeList;
use web_sys::Window;
use crate::element;
use crate::element::require_match;
use crate::errors::DomError;
use crate::errors::require;
use crate::kinds::NodeKind;
use crate::sys;

verus! {

/// The element carrying the id, or the failure naming the id: an absent id
/// is never an absent value.
pub fn get_element_by_id_el(d: &Document, id: &str) -> (r: Result<Element, DomError>)
    ensures
        r matches Err(err) ==> err matches DomError::NoElementWithId { id: i } && i@ == id@,
{
    require(sys::doc_get_element_by_id(d, id), DomError::NoElementWithId { id: id.to_owned() })
}

/// The element carrying the id, narrowed to an html-element.
pub fn get_element_by_id_html(d: &Document, id: &str) -> (r: Result<HtmlElement, DomError>)
    ensures
        r matches Err(err) ==> (err matches DomError::NoElementWithId { id: i } && i@ == id@)
            || err == (DomError::NarrowFailed { target: NodeKind::HtmlElement }),
{
    match get_element_by_id_el(d, id) {
        Ok(found) => element::to_html(&found),
        Err(err) => Err(err),
    }
}

/// First element of the document matching the selector.
pub fn query_selector_el(d: &Document, selector: &str) -> (r: Result<Element, DomError>)
    ensures
        r matches Err(err) ==> (err matches DomError::NoSelectorMatch { selector: s } && s@
            == selector@) || (err matches DomError::InvalidSelector { selector: s } && s@
            == selector@),
{
    require_match(sys::doc_query_selector(d, selector), selector)
}

/// First element of the document matching the selector, narrowed to an
/// html-element.
pub fn query_selector_html(d: &Document, selector: &str) -> (r: Result<HtmlElement, DomError>)
    ensures
        r matches Err(err) ==> (err matches DomError::NoSelectorMatch { selector: s } && s@
            == selector@) || (err matches DomError::InvalidSelector { selector: s } && s@
            == selector@) || err == (DomError::NarrowFailed { target: NodeKind::HtmlElement }),
{
    match query_selector_el(d, selector) {
        Ok(found) => element::to_html(&found),
        Err(err) => Err(err),
    }
}

/// All elements of the document matching the selector, in tree order. Zero
/// matches is an empty list, not a failure; only a rejected selector fails.
pub fn query_selector_list(d: &Document, selector: &str) -> (r: Result<NodeList, DomError>)
    ensures
        r matches Err(err) ==> err matches DomError::InvalidSelector { selector: s } && s@
            == selector@,
{
    require(
        sys::doc_query_selector_all(d, selector),
        DomError::InvalidSelector { selector: selector.to_owned() },
    )
}

/// The document's root element.
pub fn document_element_el(d: &Document) -> (r: Result<Element, DomError>)
    ensures
        r matches Err(err) ==> err matches DomError::MissingProperty { property } && property@
            == "document element"@,
{
    require(
        sys::doc_document_element(d),
        DomError::MissingProperty { property: String::from_str("document element") },
    )
}

/// The document's root element, narrowed to an html-element.
pub fn document_element_html(d: &Document) -> (r: Result<HtmlElement, DomError>)
    ensures
        r matches Err(err) ==> (err matches DomError::MissingProperty { property } && property@
            == "document element"@) || err == (DomError::NarrowFailed {
            target: NodeKind::HtmlElement,
        }),
{
    match document_element_el(d) {
        Ok(root) => element::to_html(&root),
        Err(err) => Err(err),
    }
}

/// The document's url.
pub fn get_url(d: &Document) -> (r: Result<String, DomError>)
    ensures
        r matches Err(err) ==> err matches DomError::MissingProperty { property } && property@
            == "url"@,
{
    require(sys::doc_url(d), DomError::MissingProperty { property: String::from_str("url") })
}

/// The document's location handle.
pub fn get_location(d: &Document) -> (r: Result<Location, DomError>)
    ensures
        r matches Err(err) ==> err matches DomError::MissingProperty { property } && property@
            == "location"@,
{
    require(
        sys::doc_location(d),
        DomError::MissingProperty { property: String::from_str("location") },
    )
}

/// The fragment of the document's location.
pub fn get_hash(d: &Document) -> (r: Result<String, DomError>)
    ensures
        r matches Err(err) ==> err matches DomError::MissingProperty { property } && (property@
            == "location"@ || property@ == "hash"@),
{
    match get_location(d) {
        Ok(location) => require(
            sys::loc_hash(&location),
            DomError::MissingProperty { property: String::from_str("hash") },
        ),
        Err(err) => Err(err),
    }
}

/// The host of the document's location.
pub fn get_host(d: &Document) -> (r: Result<String, DomError>)
    ensures
        r matches Err(err) ==> err matches DomError::MissingProperty { property } && (property@
            == "location"@ || property@ == "host"@),
{
    match get_location(d) {
        Ok(location) => require(
            sys::loc_host(&location),
            DomError::MissingProperty { property: String::from_str("host") },
        ),
        Err(err) => Err(err),
    }
}

/// The hostname of the document's location.
pub fn get_hostname(d: &Document) -> (r: Result<String, DomError>)
    ensures
        r matches Err(err) ==> err matches DomError::MissingProperty { property } && (property@
            == "location"@ || property@ == "hostname"@),
{
    match get_location(d) {
        Ok(location) => require(
            sys::loc_hostname(&location),
            DomError::MissingProperty { property: String::from_str("hostname") },
        ),
        Err(err) => Err(err),
    }
}

/// The href of the document's location.
pub fn get_href(d: &Document) -> (r: Result<String, DomError>)
    ensures
        r matches Err(err) ==> err matches DomError::MissingProperty { property } && (property@
            == "location"@ || property@ == "href"@),
{
    match get_location(d) {
        Ok(location) => require(
            sys::loc_href(&location),
            DomError::MissingProperty { property: String::from_str("href") },
        ),
        Err(err) => Err(err),
    }
}

/// Replace the document's body with the given html-element.
pub fn set_new_body(d: &Document, body: &HtmlElement) {
    sys::doc_set_body(d, body)
}

/// The window the document belongs to.
pub fn get_default_view(d: &Document) -> (r: Result<Window, DomError>)
    ensures
        r matches Err(err) ==> err matches DomError::MissingProperty { property } && property@
            == "default view"@,
{
    require(
        sys::doc_default_view(d),
        DomError::MissingProperty { property: String::from_str("default view") },
    )
}

} // verus!

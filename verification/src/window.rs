//! Operations on the window handle: document retrieval and the loosely
//! typed geometry accessors.
//!
//! The scroll and page-offset accessors return floating-point values and
//! therefore live with the unverified callers, beside the abort-on-failure
//! layer.

use vstd::prelude::*;
use wasm_bindgen::JsValue;
use web_sys::Document;
use web_sys::Element;
use web_sys::HtmlElement;
use web_sys::Window;
use crate::document;
use crate::errors::DomError;
use crate::errors::require;
use crate::kinds::NodeKind;
use crate::sys;

verus! {

/// The document the window holds.
pub fn document_page(w: &Window) -> (r: Result<Document, DomError>)
    ensures
        r matches Err(err) ==> err matches DomError::MissingProperty { property } && property@
            == "document"@,
{
    require(
        sys::win_document(w),
        DomError::MissingProperty { property: String::from_str("document") },
    )
}

/// The root element of the window's document.
pub fn document_element_el(w: &Window) -> (r: Result<Element, DomError>)
    ensures
        r matches Err(err) ==> err matches DomError::MissingProperty { property } && (property@
            == "document"@ || property@ == "document element"@),
{
    match document_page(w) {
        Ok(d) => document::document_element_el(&d),
        Err(err) => Err(err),
    }
}

/// The root element of the window's document, narrowed to an html-element.
pub fn document_element_html(w: &Window) -> (r: Result<HtmlElement, DomError>)
    ensures
        r matches Err(err) ==> (err matches DomError::MissingProperty { property } && (property@
            == "document"@ || property@ == "document element"@)) || err == (DomError::NarrowFailed {
            target: NodeKind::HtmlElement,
        }),
{
    match document_page(w) {
        Ok(d) => document::document_element_html(&d),
        Err(err) => Err(err),
    }
}

/// The window's name.
pub fn get_name(w: &Window) -> (r: Result<String, DomError>)
    ensures
        r matches Err(err) ==> err matches DomError::MissingProperty { property } && property@
            == "name"@,
{
    require(sys::win_name(w), DomError::MissingProperty { property: String::from_str("name") })
}

/// The window's screen x position, as the loosely typed native value.
pub fn get_screen_x(w: &Window) -> (r: Result<JsValue, DomError>)
    ensures
        r matches Err(err) ==> err matches DomError::MissingProperty { property } && property@
            == "screen x"@,
{
    require(
        sys::win_screen_x(w),
        DomError::MissingProperty { property: String::from_str("screen x") },
    )
}

/// The window's screen y position, as the loosely typed native value.
pub fn get_screen_y(w: &Window) -> (r: Result<JsValue, DomError>)
    ensures
        r matches Err(err) ==> err matches DomError::MissingProperty { property } && property@
            == "screen y"@,
{
    require(
        sys::win_screen_y(w),
        DomError::MissingProperty { property: String::from_str("screen y") },
    )
}

/// The window's outer width, as the loosely typed native value.
pub fn get_outer_width(w: &Window) -> (r: Result<JsValue, DomError>)
    ensures
        r matches Err(err) ==> err matches DomError::MissingProperty { property } && property@
            == "outer width"@,
{
    require(
        sys::win_outer_width(w),
        DomError::MissingProperty { property: String::from_str("outer width") },
    )
}

/// The window's outer height, as the loosely typed native value.
pub fn get_outer_height(w: &Window) -> (r: Result<JsValue, DomError>)
    ensures
        r matches Err(err) ==> err matches DomError::MissingProperty { property } && property@
            == "outer height"@,
{
    require(
        sys::win_outer_height(w),
        DomError::MissingProperty { property: String::from_str("outer height") },
    )
}

} // verus!

//! Trusted bindings to the native document-object-model.
//!
//! Every function here performs one native call and converts its outcome to
//! a plain shape. What a call hands back depends on the live document tree,
//! which other scripts may rewrite between any two calls, so nothing is
//! promised of the results: the callers state what holds whatever came back.
//! The handle types themselves are declared opaque. The native calls assume
//! a hosting runtime that supplies the document-object-model.

use vstd::prelude::*;
use wasm_bindgen::JsCast;
use wasm_bindgen::JsValue;
use web_sys::Attr;
use web_sys::CssStyleDeclaration;
use web_sys::Document;
use web_sys::Element;
use web_sys::HtmlElement;
use web_sys::HtmlSlotElement;
use web_sys::Location;
use web_sys::Node;
use web_sys::NodeList;
use web_sys::Window;

verus! {

#[verifier::external_type_specification]
#[verifier::external_body]
pub struct ExWindow(Window);

#[verifier::external_type_specification]
#[verifier::external_body]
pub struct ExDocument(Document);

#[verifier::external_type_specification]
#[verifier::external_body]
pub struct ExElement(Element);

#[verifier::external_type_specification]
#[verifier::external_body]
pub struct ExHtmlElement(HtmlElement);

#[verifier::external_type_specification]
#[verifier::external_body]
pub struct ExHtmlSlotElement(HtmlSlotElement);

#[verifier::external_type_specification]
#[verifier::external_body]
pub struct ExNode(Node);

#[verifier::external_type_specification]
#[verifier::external_body]
pub struct ExNodeList(NodeList);

#[verifier::external_type_specification]
#[verifier::external_body]
pub struct ExAttr(Attr);

#[verifier::external_type_specification]
#[verifier::external_body]
pub struct ExLocation(Location);

#[verifier::external_type_specification]
#[verifier::external_body]
pub struct ExCssStyleDeclaration(CssStyleDeclaration);

#[verifier::external_type_specification]
#[verifier::external_body]
pub struct ExJsValue(JsValue);

/// What a native call that may reject its argument and may find nothing
/// came back with: an element, no element, or a rejection.
pub enum ElementOutcome {
    Found(Element),
    Absent,
    Rejected,
}

/// Relies on web_sys::window: the global window of the hosting context,
/// when there is one.
#[verifier::external_body]
pub(crate) fn sys_window() -> (r: Option<Window>) {
    web_sys::window()
}

/// Relies on web_sys::Window::document: the document the window holds.
#[verifier::external_body]
pub(crate) fn win_document(w: &Window) -> (r: Option<Document>) {
    w.document()
}

/// Relies on web_sys::Window::name.
#[verifier::external_body]
pub(crate) fn win_name(w: &Window) -> (r: Option<String>) {
    w.name().ok()
}

/// Relies on web_sys::Window::screen_x.
#[verifier::external_body]
pub(crate) fn win_screen_x(w: &Window) -> (r: Option<JsValue>) {
    w.screen_x().ok()
}

/// Relies on web_sys::Window::screen_y.
#[verifier::external_body]
pub(crate) fn win_screen_y(w: &Window) -> (r: Option<JsValue>) {
    w.screen_y().ok()
}

/// Relies on web_sys::Window::outer_width.
#[verifier::external_body]
pub(crate) fn win_outer_width(w: &Window) -> (r: Option<JsValue>) {
    w.outer_width().ok()
}

/// Relies on web_sys::Window::outer_height.
#[verifier::external_body]
pub(crate) fn win_outer_height(w: &Window) -> (r: Option<JsValue>) {
    w.outer_height().ok()
}

/// Relies on web_sys::Document::get_element_by_id.
#[verifier::external_body]
pub(crate) fn doc_get_element_by_id(d: &Document, id: &str) -> (r: Option<Element>) {
    d.get_element_by_id(id)
}

/// Relies on web_sys::Document::query_selector: the first match of the
/// selector, nothing when no element matches, a rejection when the native
/// query mechanism refuses the selector text.
#[verifier::external_body]
pub(crate) fn doc_query_selector(d: &Document, selector: &str) -> (r: ElementOutcome) {
    match d.query_selector(selector) {
        Ok(Some(e)) => ElementOutcome::Found(e),
        Ok(None) => ElementOutcome::Absent,
        Err(_) => ElementOutcome::Rejected,
    }
}

/// Relies on web_sys::Document::query_selector_all: the list of all matches,
/// empty when no element matches; no list when the selector is refused.
#[verifier::external_body]
pub(crate) fn doc_query_selector_all(d: &Document, selector: &str) -> (r: Option<NodeList>) {
    d.query_selector_all(selector).ok()
}

/// Relies on web_sys::Document::document_element: the root element.
#[verifier::external_body]
pub(crate) fn doc_document_element(d: &Document) -> (r: Option<Element>) {
    d.document_element()
}

/// Relies on web_sys::Document::url.
#[verifier::external_body]
pub(crate) fn doc_url(d: &Document) -> (r: Option<String>) {
    d.url().ok()
}

/// Relies on web_sys::Document::location.
#[verifier::external_body]
pub(crate) fn doc_location(d: &Document) -> (r: Option<Location>) {
    d.location()
}

/// Relies on web_sys::Document::set_body.
#[verifier::external_body]
pub(crate) fn doc_set_body(d: &Document, body: &HtmlElement) {
    d.set_body(Some(body))
}

/// Relies on web_sys::Document::default_view: the window the document
/// belongs to.
#[verifier::external_body]
pub(crate) fn doc_default_view(d: &Document) -> (r: Option<Window>) {
    d.default_view()
}

/// Relies on web_sys::Location::hash.
#[verifier::external_body]
pub(crate) fn loc_hash(l: &Location) -> (r: Option<String>) {
    l.hash().ok()
}

/// Relies on web_sys::Location::host.
#[verifier::external_body]
pub(crate) fn loc_host(l: &Location) -> (r: Option<String>) {
    l.host().ok()
}

/// Relies on web_sys::Location::hostname.
#[verifier::external_body]
pub(crate) fn loc_hostname(l: &Location) -> (r: Option<String>) {
    l.hostname().ok()
}

/// Relies on web_sys::Location::href.
#[verifier::external_body]
pub(crate) fn loc_href(l: &Location) -> (r: Option<String>) {
    l.href().ok()
}

/// Relies on web_sys::Element::class_name: the element's class attribute as
/// one string.
#[verifier::external_body]
pub(crate) fn el_class_name(e: &Element) -> (r: String) {
    e.class_name()
}

/// Relies on web_sys::Element::set_class_name: replaces the element's class
/// attribute with the given string.
#[verifier::external_body]
pub(crate) fn el_set_class_name(e: &Element, value: &str) {
    e.set_class_name(value)
}

/// Relies on web_sys::Element::namespace_uri.
#[verifier::external_body]
pub(crate) fn el_namespace_uri(e: &Element) -> (r: Option<String>) {
    e.namespace_uri()
}

/// Relies on web_sys::Element::prefix.
#[verifier::external_body]
pub(crate) fn el_prefix(e: &Element) -> (r: Option<String>) {
    e.prefix()
}

/// Relies on web_sys::Element::assigned_slot.
#[verifier::external_body]
pub(crate) fn el_assigned_slot(e: &Element) -> (r: Option<HtmlSlotElement>) {
    e.assigned_slot()
}

/// Relies on web_sys::Element::query_selector, as the document form does.
#[verifier::external_body]
pub(crate) fn el_query_selector(e: &Element, selector: &str) -> (r: ElementOutcome) {
    match e.query_selector(selector) {
        Ok(Some(found)) => ElementOutcome::Found(found),
        Ok(None) => ElementOutcome::Absent,
        Err(_) => ElementOutcome::Rejected,
    }
}

/// Relies on web_sys::Element::query_selector_all, as the document form
/// does.
#[verifier::external_body]
pub(crate) fn el_query_selector_all(e: &Element, selector: &str) -> (r: Option<NodeList>) {
    e.query_selector_all(selector).ok()
}

/// Relies on web_sys::Node::parent_element.
#[verifier::external_body]
pub(crate) fn el_parent_element(e: &Element) -> (r: Option<Element>) {
    e.parent_element()
}

/// Relies on web_sys::Node::first_child.
#[verifier::external_body]
pub(crate) fn el_first_child(e: &Element) -> (r: Option<Node>) {
    e.first_child()
}

/// Relies on web_sys::Node::last_child.
#[verifier::external_body]
pub(crate) fn el_last_child(e: &Element) -> (r: Option<Node>) {
    e.last_child()
}

/// Relies on web_sys::Node::previous_sibling.
#[verifier::external_body]
pub(crate) fn el_previous_sibling(e: &Element) -> (r: Option<Node>) {
    e.previous_sibling()
}

/// Relies on web_sys::Element::first_element_child.
#[verifier::external_body]
pub(crate) fn el_first_element_child(e: &Element) -> (r: Option<Element>) {
    e.first_element_child()
}

/// Relies on web_sys::Element::last_element_child.
#[verifier::external_body]
pub(crate) fn el_last_element_child(e: &Element) -> (r: Option<Element>) {
    e.last_element_child()
}

/// Relies on web_sys::Element::next_element_sibling.
#[verifier::external_body]
pub(crate) fn el_next_element_sibling(e: &Element) -> (r: Option<Element>) {
    e.next_element_sibling()
}

/// Relies on web_sys::Element::previous_element_sibling.
#[verifier::external_body]
pub(crate) fn el_previous_element_sibling(e: &Element) -> (r: Option<Element>) {
    e.previous_element_sibling()
}

/// Relies on web_sys::Element::closest: the nearest inclusive ancestor
/// matching the selector, in the same outcome shape as a query.
#[verifier::external_body]
pub(crate) fn el_closest(e: &Element, selector: &str) -> (r: ElementOutcome) {
    match e.closest(selector) {
        Ok(Some(found)) => ElementOutcome::Found(found),
        Ok(None) => ElementOutcome::Absent,
        Err(_) => ElementOutcome::Rejected,
    }
}

/// Relies on web_sys::Element::get_attribute.
#[verifier::external_body]
pub(crate) fn el_get_attribute(e: &Element, name: &str) -> (r: Option<String>) {
    e.get_attribute(name)
}

/// Relies on web_sys::Element::get_attribute_node.
#[verifier::external_body]
pub(crate) fn el_get_attribute_node(e: &Element, name: &str) -> (r: Option<Attr>) {
    e.get_attribute_node(name)
}

/// Relies on web_sys::Element::get_attribute_ns, with the namespace always
/// given.
#[verifier::external_body]
pub(crate) fn el_get_attribute_ns(
    e: &Element,
    namespace: &str,
    local_name: &str,
) -> (r: Option<String>) {
    e.get_attribute_ns(Some(namespace), local_name)
}

/// Relies on web_sys::Element::toggle_attribute: the presence state after
/// the toggle, or nothing when the native call errors.
#[verifier::external_body]
pub(crate) fn el_toggle_attribute(e: &Element, name: &str) -> (r: Option<bool>) {
    e.toggle_attribute(name).ok()
}

/// Relies on web_sys::Element::remove_attribute: whether the native removal
/// call itself went through, independent of prior presence.
#[verifier::external_body]
pub(crate) fn el_remove_attribute(e: &Element, name: &str) -> (r: bool) {
    e.remove_attribute(name).is_ok()
}

/// Relies on web_sys::Element::matches: whether the element matches the
/// selector, or nothing when the selector is refused.
#[verifier::external_body]
pub(crate) fn el_matches(e: &Element, selector: &str) -> (r: Option<bool>) {
    e.matches(selector).ok()
}

/// Relies on web_sys::Node::node_value.
#[verifier::external_body]
pub(crate) fn el_node_value(e: &Element) -> (r: Option<String>) {
    e.node_value()
}

/// Relies on web_sys::Node::text_content.
#[verifier::external_body]
pub(crate) fn el_text_content(e: &Element) -> (r: Option<String>) {
    e.text_content()
}

/// Relies on web_sys::Node::append_child: the appended node, or nothing
/// when the tree rejects the insertion.
#[verifier::external_body]
pub(crate) fn el_append_child(e: &Element, node: &Node) -> (r: Option<Node>) {
    e.append_child(node).ok()
}

/// Relies on web_sys::Element::insert_adjacent_element: the inserted
/// element; a rejection when the position keyword is invalid or the tree
/// refuses the insertion.
#[verifier::external_body]
pub(crate) fn el_insert_adjacent_element(
    e: &Element,
    position: &str,
    element: &Element,
) -> (r: ElementOutcome) {
    match e.insert_adjacent_element(position, element) {
        Ok(Some(inserted)) => ElementOutcome::Found(inserted),
        Ok(None) => ElementOutcome::Absent,
        Err(_) => ElementOutcome::Rejected,
    }
}

/// Relies on wasm_bindgen::JsCast::dyn_into: an element narrows to an
/// html-element exactly when the underlying object is of that subtype.
#[verifier::external_body]
pub(crate) fn el_dyn_html(e: &Element) -> (r: Option<HtmlElement>) {
    e.clone().dyn_into::<HtmlElement>().ok()
}

/// Relies on the generated AsRef impl: an html-element is an element; the
/// widening cast cannot fail.
#[verifier::external_body]
pub(crate) fn html_as_element(h: &HtmlElement) -> (r: &Element) {
    h.as_ref()
}

/// Relies on the generated From impl: an owned widening cast of an
/// html-element to an element, referencing the same underlying node.
#[verifier::external_body]
pub(crate) fn html_to_element(h: &HtmlElement) -> (r: Element) {
    h.clone().into()
}

/// Relies on web_sys::HtmlElement::offset_parent.
#[verifier::external_body]
pub(crate) fn html_offset_parent(h: &HtmlElement) -> (r: Option<Element>) {
    h.offset_parent()
}

/// Relies on web_sys::HtmlElement::style: the element's inline style
/// declaration.
#[verifier::external_body]
pub(crate) fn html_style(h: &HtmlElement) -> (r: CssStyleDeclaration) {
    h.style()
}

/// Relies on web_sys::CssStyleDeclaration::get_property_value.
#[verifier::external_body]
pub(crate) fn style_get_property(s: &CssStyleDeclaration, property: &str) -> (r: Option<String>) {
    s.get_property_value(property).ok()
}

/// Relies on web_sys::CssStyleDeclaration::set_property: whether the style
/// engine accepted the property and value.
#[verifier::external_body]
pub(crate) fn style_set_property(s: &CssStyleDeclaration, property: &str, value: &str) -> (r:
    bool) {
    s.set_property(property, value).is_ok()
}

/// Relies on wasm_bindgen::JsCast::dyn_into: a node narrows to an element
/// exactly when the underlying object is of that subtype.
#[verifier::external_body]
pub(crate) fn node_dyn_element(n: &Node) -> (r: Option<Element>) {
    n.clone().dyn_into::<Element>().ok()
}

/// Relies on wasm_bindgen::JsCast::dyn_into: a node narrows to an
/// html-element exactly when the underlying object is of that subtype.
#[verifier::external_body]
pub(crate) fn node_dyn_html(n: &Node) -> (r: Option<HtmlElement>) {
    n.clone().dyn_into::<HtmlElement>().ok()
}

/// Relies on web_sys::NodeList::item: the member at the index, when the
/// index is within the list.
#[verifier::external_body]
pub(crate) fn list_item(l: &NodeList, index: u32) -> (r: Option<Node>) {
    l.item(index)
}

/// Relies on web_sys::NodeList::length.
#[verifier::external_body]
pub(crate) fn list_length(l: &NodeList) -> (r: u32) {
    l.length()
}

} // verus!

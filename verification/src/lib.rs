//! Convenience operations on browser document-object-model handles.
//!
//! The library wraps verbose or fallible native calls on Window, Document,
//! Element, HtmlElement, Node and NodeList handles into terser accessors
//! with a typed error result, and supplies the class-name manipulation and
//! type-narrowing conventions those accessors share. Every failure mode is
//! a named condition carrying the offending identifier; callers that want
//! the crash-on-missing behaviour unwrap a result and abort with the
//! condition's message.

pub mod classes;
pub mod document;
pub mod element;
pub mod errors;
pub mod globals;
pub mod html;
pub mod kinds;
pub mod model;
pub mod node;
pub mod nodelist;
pub mod sys;
pub mod window;

pub use globals::document;
pub use globals::window;

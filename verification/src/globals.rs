//! The two process-wide entry points: the global window and its document.

use vstd::prelude::*;
use web_sys::Document;
use web_sys::Window;
use crate::errors::DomError;
use crate::errors::require;
use crate::sys;
use crate::window::document_page;

verus! {

/// The global window of the hosting context, or the failure that there is
/// none.
pub fn window() -> (r: Result<Window, DomError>)
    ensures
        r matches Err(err) ==> err matches DomError::MissingProperty { property } && property@
            == "window"@,
{
    require(sys::sys_window(), DomError::MissingProperty { property: String::from_str("window") })
}

/// The document of the global window.
pub fn document() -> (r: Result<Document, DomError>)
    ensures
        r matches Err(err) ==> err matches DomError::MissingProperty { property } && (property@
            == "window"@ || property@ == "document"@),
{
    match window() {
        Ok(w) => document_page(&w),
        Err(err) => Err(err),
    }
}

} // verus!

//! Behaviour of the failure conditions, their messages, and the requirers
//! that turn absent native results into them.

use minimal::errors::require;
use minimal::errors::u32_to_decimal;
use minimal::errors::DomError;
use minimal::kinds::NodeKind;
use minimal::element::require_match;
use minimal::sys::ElementOutcome;

#[test]
fn decimal_rendering_is_exact() {
    assert_eq!(u32_to_decimal(0), "0");
    assert_eq!(u32_to_decimal(7), "7");
    assert_eq!(u32_to_decimal(10), "10");
    assert_eq!(u32_to_decimal(105), "105");
    assert_eq!(u32_to_decimal(4294967295), "4294967295");
}

#[test]
fn messages_name_the_failed_accessor_and_identifier() {
    let e = DomError::MissingProperty { property: "window".to_string() };
    assert_eq!(e.message(), "no window found");
    let e = DomError::NoElementWithId { id: "main".to_string() };
    assert_eq!(e.message(), "no element with id: main");
    let e = DomError::NoSelectorMatch { selector: "h1".to_string() };
    assert_eq!(e.message(), "no element with this selector found: h1");
    let e = DomError::InvalidSelector { selector: ":::".to_string() };
    assert_eq!(e.message(), "the selector was rejected: :::");
    let e = DomError::NarrowFailed { target: NodeKind::HtmlElement };
    assert_eq!(e.message(), "narrowing to HtmlElement failed");
    let e = DomError::IndexOutOfRange { index: 42 };
    assert_eq!(e.message(), "no element in position 42");
    let e = DomError::OperationRejected { operation: "setProperty".to_string() };
    assert_eq!(e.message(), "the setProperty call was rejected");
}

#[test]
fn require_hands_a_present_value_through() {
    let failure = DomError::MissingProperty { property: "name".to_string() };
    assert_eq!(require(Some(5u32), failure), Ok(5u32));
}

#[test]
fn require_turns_an_absent_value_into_the_named_failure() {
    // An absent value is never handed through as a result: the call comes
    // back with exactly the named condition.
    let failure = DomError::NoElementWithId { id: "missing".to_string() };
    let r = require(None::<u32>, failure.clone());
    assert_eq!(r, Err(failure));
}

#[test]
fn require_match_tells_no_match_and_rejection_apart() {
    let r = require_match(ElementOutcome::Absent, "aside");
    assert_eq!(r.unwrap_err(), DomError::NoSelectorMatch { selector: "aside".to_string() });
    let r = require_match(ElementOutcome::Rejected, "!!");
    assert_eq!(r.unwrap_err(), DomError::InvalidSelector { selector: "!!".to_string() });
}

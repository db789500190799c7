//! The single failure taxonomy of the library.
//!
//! Every operation that cannot produce its declared result reports one of
//! these conditions, carrying the offending identifier. Callers that want
//! the crash-on-missing behaviour unwrap the result and abort with the
//! condition's message.

use vstd::prelude::*;
use crate::kinds::NodeKind;
use crate::kinds::kind_label;
use crate::kinds::kind_name;

verus! {

/// A failed operation: what was missing or rejected, and which identifier
/// named it.
#[derive(Debug, Clone, PartialEq, Eq)]
pub enum DomError {
    /// A native property read came back empty; the field names the property.
    MissingProperty { property: String },
    /// No element in the tree carries the id.
    NoElementWithId { id: String },
    /// A single-match selector query found nothing.
    NoSelectorMatch { selector: String },
    /// The native query mechanism rejected the selector text.
    InvalidSelector { selector: String },
    /// A handle could not be narrowed to the target kind.
    NarrowFailed { target: NodeKind },
    /// An indexed list access lay outside the list.
    IndexOutOfRange { index: u32 },
    /// The tree or the style engine refused a mutation; the field names the
    /// native call.
    OperationRejected { operation: String },
}

/// The decimal digit for a value below ten.
pub open spec fn decimal_digit(d: nat) -> char {
    if d == 0 {
        '0'
    } else if d == 1 {
        '1'
    } else if d == 2 {
        '2'
    } else if d == 3 {
        '3'
    } else if d == 4 {
        '4'
    } else if d == 5 {
        '5'
    } else if d == 6 {
        '6'
    } else if d == 7 {
        '7'
    } else if d == 8 {
        '8'
    } else {
        '9'
    }
}

/// The decimal rendering of a number, most significant digit first, with no
/// leading zeros except for zero itself.
pub open spec fn decimal_digits(n: nat) -> Seq<char>
    decreases n,
{
    if n < 10 {
        seq![decimal_digit(n)]
    } else {
        decimal_digits(n / 10) + seq![decimal_digit(n % 10)]
    }
}

/// The decimal rendering of an index, for failure messages.
pub fn u32_to_decimal(n: u32) -> (r: String)
    ensures
        r@ == decimal_digits(n as nat),
    decreases n,
{
    let digits = "0123456789";
    proof {
        reveal_strlit("0123456789");
    }
    if n < 10 {
        let d = n as usize;
        let r = String::from_str(digits.substring_char(d, d + 1));
        proof {
            assert(r@ =~= decimal_digits(n as nat));
        }
        r
    } else {
        let mut r = u32_to_decimal(n / 10);
        let d = (n % 10) as usize;
        r.append(digits.substring_char(d, d + 1));
        proof {
            assert(r@ =~= decimal_digits(n as nat));
        }
        r
    }
}

impl DomError {
    /// The human-readable message of the condition, naming the failed
    /// accessor and the offending identifier.
    pub fn message(&self) -> (r: String)
        ensures
            self matches DomError::MissingProperty { property } ==> r@ == "no "@ + property@
                + " found"@,
            self matches DomError::NoElementWithId { id } ==> r@ == "no element with id: "@ + id@,
            self matches DomError::NoSelectorMatch { selector } ==> r@
                == "no element with this selector found: "@ + selector@,
            self matches DomError::InvalidSelector { selector } ==> r@
                == "the selector was rejected: "@ + selector@,
            self matches DomError::NarrowFailed { target } ==> r@ == "narrowing to "@ + kind_label(
                *target,
            ) + " failed"@,
            self matches DomError::IndexOutOfRange { index } ==> r@ == "no element in position "@
                + decimal_digits(*index as nat),
            self matches DomError::OperationRejected { operation } ==> r@ == "the "@ + operation@
                + " call was rejected"@,
    {
        match self {
            DomError::MissingProperty { property } => String::from_str("no ").concat(
                property.as_str(),
            ).concat(" found"),
            DomError::NoElementWithId { id } => String::from_str("no element with id: ").concat(
                id.as_str(),
            ),
            DomError::NoSelectorMatch { selector } => String::from_str(
                "no element with this selector found: ",
            ).concat(selector.as_str()),
            DomError::InvalidSelector { selector } => String::from_str(
                "the selector was rejected: ",
            ).concat(selector.as_str()),
            DomError::NarrowFailed { target } => String::from_str("narrowing to ").concat(
                kind_name(*target),
            ).concat(" failed"),
            DomError::IndexOutOfRange { index } => String::from_str("no element in position ")
                .concat(u32_to_decimal(*index).as_str()),
            DomError::OperationRejected { operation } => String::from_str("the ").concat(
                operation.as_str(),
            ).concat(" call was rejected"),
        }
    }
}

/// Unwrap an optional native result, or report the given failure. This is
/// the recoverable form of the unwrap-or-abort convention: the caller names
/// the condition, and an absent value comes back as exactly that condition.
pub fn require<T>(found: Option<T>, failure: DomError) -> (r: Result<T, DomError>)
    ensures
        found matches Some(v) ==> r == Ok::<T, DomError>(v),
        found is None ==> r == Err::<T, DomError>(failure),
{
    match found {
        Some(v) => Ok(v),
        None => Err(failure),
    }
}

} // verus!

//! Errors reported while resolving unit names and converting values.

use vstd::prelude::*;

verus! {

/// A rejected conversion request.
///
/// Every variant is detected before any conversion arithmetic runs, and
/// aborts the whole request.
#[derive(Debug)]
pub enum UnitError {
    /// The given text matched no alias of any unit in any category.
    /// `unit` carries the offending text verbatim; `position` names the
    /// argument it came from (for example `"--from"`), or is empty.
    UnknownUnit { unit: String, position: &'static str },
    /// The two names resolved to units of different categories.
    CrossCategoryConversion { from_category: &'static str, to_category: &'static str },
    /// A negative value was supplied for a category of physical
    /// quantities that has no values below zero.
    InvalidValue,
}

} // verus!

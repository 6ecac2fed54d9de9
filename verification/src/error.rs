//! The error an indicator call reports.

use vstd::prelude::*;

verus! {

/// Why an indicator call was refused before any output was written.
#[derive(Debug, Clone, Copy, PartialEq, Eq, Structural)]
pub enum IndicatorError {
    /// A window or period parameter was zero.
    InvalidParameter,
}

} // verus!

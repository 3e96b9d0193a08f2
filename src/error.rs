//! Configuration errors, reported before any value is generated.
use vstd::prelude::*;

verus! {

/// Why a schema or one of its columns cannot be generated.
#[derive(Clone, Copy, Debug, PartialEq, Eq, Structural)]
pub enum ConfigError {
    /// The schema declares no column.
    NoColumns,
    /// A random range whose lower bound is not below its upper bound.
    EmptyRange,
    /// A string length range whose minimum exceeds its maximum.
    LengthBoundsOutOfOrder,
    /// A presence probability above one.
    PresenceOutOfRange,
}

impl ConfigError {
    /// A message that names the offending condition.
    pub fn message(&self) -> (r: &'static str)
        ensures
            *self is NoColumns ==> r@ == "No columns to generate"@,
            *self is EmptyRange ==> r@ == "Range is empty: min must be below max"@,
            *self is LengthBoundsOutOfOrder ==> r@ == "min_length is above max_length"@,
            *self is PresenceOutOfRange ==> r@ == "presence must lie between 0 and 1"@,
    {
        match self {
            ConfigError::NoColumns => "No columns to generate",
            ConfigError::EmptyRange => "Range is empty: min must be below max",
            ConfigError::LengthBoundsOutOfOrder => "min_length is above max_length",
            ConfigError::PresenceOutOfRange => "presence must lie between 0 and 1",
        }
    }
}

} // verus!

//! The two error taxonomies, one for each direction of a conversion.

use vstd::prelude::*;

verus! {

/// Why a native value could not be turned into a variant record.
#[derive(Debug, PartialEq, Eq)]
pub enum IntoVariantError {
    /// A heap payload could not be allocated.
    AllocationFailed,
    /// An element of an array payload could not be converted.
    ElementConversion(ElementError),
}

/// Why a variant record could not be turned into a native value.
#[derive(Debug, PartialEq, Eq)]
pub enum FromVariantError {
    /// A pointer payload that has to point at a value was null.
    VariantPtrNull,
    /// The decimal payload names a scale above twenty-eight.
    DecimalScale,
    /// An element of an array payload could not be converted.
    ElementConversion(ElementError),
}

/// The failure of one array element, in either direction.
#[derive(Debug, PartialEq, Eq)]
pub enum ElementError {
    /// The element could not be read out of its cell.
    From(Box<FromVariantError>),
    /// The element could not be written into its cell.
    Into(Box<IntoVariantError>),
}

} // verus!

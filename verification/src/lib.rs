//! Conversions between native values and the automation variant record: a
//! tagged union whose discriminant names the one payload that is active.
//!
//! The record is held as a closed sum type; the binary sub-formats it carries
//! (the 96-bit decimal and the scaled currency) are packed and unpacked here.

pub mod array;
pub mod bridge;
pub mod bstr;
pub mod decimal;
pub mod errors;
pub mod ptr;
pub mod record;
pub mod types;
pub mod variant;

pub use array::SafeArrayElement;
pub use bridge::TryConvert;
pub use errors::{ElementError, FromVariantError, IntoVariantError};
pub use ptr::Ptr;
pub use record::{SafeArray, VariantRecord};
pub use types::{Currency, Date, DecWrapper, F32Bits, F64Bits, Int, SCode, UInt, VariantBool};
pub use variant::{Variant, VariantExt, VtEmpty, VtNull};

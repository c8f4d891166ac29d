//! The type-conversion bridge: fallible conversion between a native type and
//! the field that a record stores for it.

use crate::bstr::{wide_units, Bstr};
use crate::decimal::{pack_spec, unpack_spec, DecimalRecord, MAX_SCALE};
use crate::errors::{FromVariantError, IntoVariantError};
use crate::ptr::Ptr;
use crate::types::{
    Currency, Cy, Date, DecWrapper, F32Bits, F64Bits, Int, SCode, UInt, VariantBool, VARIANT_TRUE,
};
use vstd::prelude::*;
use widestring::U16String;

verus! {

/// A conversion from `T` that can fail with an `E`.
pub trait TryConvert<T, E>: Sized {
    /// Whether `val` can be converted at all. It can, unless it holds a
    /// record that cannot be decoded as the type asked for.
    spec fn convertible(val: T) -> bool;

    /// Whether `out` is what converting `val` gives.
    spec fn converted(val: T, out: Result<Self, E>) -> bool;

    /// Tests whether `val` can be converted.
    fn can_convert(val: &T) -> (b: bool)
        ensures
            b == Self::convertible(*val),
    ;

    /// Converts `val`.
    fn try_convert(val: T) -> (out: Result<Self, E>)
        requires
            Self::convertible(val),
        ensures
            Self::converted(val, out),
    ;
}

/// A type that is its own field converts by being handed over.
impl<T, E> TryConvert<T, E> for T {
    open spec fn convertible(val: T) -> bool {
        true
    }

    open spec fn converted(val: T, out: Result<T, E>) -> bool {
        out == Ok::<T, E>(val)
    }

    fn can_convert(val: &T) -> (b: bool) {
        true
    }

    fn try_convert(val: T) -> (out: Result<T, E>) {
        Ok(val)
    }
}

impl TryConvert<F32Bits, IntoVariantError> for u32 {
    open spec fn convertible(val: F32Bits) -> bool {
        true
    }

    open spec fn converted(val: F32Bits, out: Result<u32, IntoVariantError>) -> bool {
        out == Ok::<u32, IntoVariantError>(val.0)
    }

    fn can_convert(val: &F32Bits) -> (b: bool) {
        true
    }

    fn try_convert(val: F32Bits) -> (out: Result<u32, IntoVariantError>) {
        Ok(u32::from(val))
    }
}

impl TryConvert<u32, FromVariantError> for F32Bits {
    open spec fn convertible(val: u32) -> bool {
        true
    }

    open spec fn converted(val: u32, out: Result<F32Bits, FromVariantError>) -> bool {
        out == Ok::<F32Bits, FromVariantError>(F32Bits(val))
    }

    fn can_convert(val: &u32) -> (b: bool) {
        true
    }

    fn try_convert(val: u32) -> (out: Result<F32Bits, FromVariantError>) {
        Ok(F32Bits::from(val))
    }
}

impl TryConvert<F64Bits, IntoVariantError> for u64 {
    open spec fn convertible(val: F64Bits) -> bool {
        true
    }

    open spec fn converted(val: F64Bits, out: Result<u64, IntoVariantError>) -> bool {
        out == Ok::<u64, IntoVariantError>(val.0)
    }

    fn can_convert(val: &F64Bits) -> (b: bool) {
        true
    }

    fn try_convert(val: F64Bits) -> (out: Result<u64, IntoVariantError>) {
        Ok(u64::from(val))
    }
}

impl TryConvert<u64, FromVariantError> for F64Bits {
    open spec fn convertible(val: u64) -> bool {
        true
    }

    open spec fn converted(val: u64, out: Result<F64Bits, FromVariantError>) -> bool {
        out == Ok::<F64Bits, FromVariantError>(F64Bits(val))
    }

    fn can_convert(val: &u64) -> (b: bool) {
        true
    }

    fn try_convert(val: u64) -> (out: Result<F64Bits, FromVariantError>) {
        Ok(F64Bits::from(val))
    }
}

impl TryConvert<VariantBool, IntoVariantError> for i16 {
    open spec fn convertible(val: VariantBool) -> bool {
        true
    }

    open spec fn converted(val: VariantBool, out: Result<i16, IntoVariantError>) -> bool {
        out == Ok::<i16, IntoVariantError>(
            if val.0 {
                VARIANT_TRUE
            } else {
                0
            },
        )
    }

    fn can_convert(val: &VariantBool) -> (b: bool) {
        true
    }

    fn try_convert(val: VariantBool) -> (out: Result<i16, IntoVariantError>) {
        Ok(i16::from(val))
    }
}

impl TryConvert<i16, FromVariantError> for VariantBool {
    open spec fn convertible(val: i16) -> bool {
        true
    }

    open spec fn converted(val: i16, out: Result<VariantBool, FromVariantError>) -> bool {
        out == Ok::<VariantBool, FromVariantError>(VariantBool(val < 0))
    }

    fn can_convert(val: &i16) -> (b: bool) {
        true
    }

    fn try_convert(val: i16) -> (out: Result<VariantBool, FromVariantError>) {
        Ok(VariantBool::from(val))
    }
}

impl TryConvert<SCode, IntoVariantError> for i32 {
    open spec fn convertible(val: SCode) -> bool {
        true
    }

    open spec fn converted(val: SCode, out: Result<i32, IntoVariantError>) -> bool {
        out == Ok::<i32, IntoVariantError>(val.0)
    }

    fn can_convert(val: &SCode) -> (b: bool) {
        true
    }

    fn try_convert(val: SCode) -> (out: Result<i32, IntoVariantError>) {
        Ok(i32::from(val))
    }
}

impl TryConvert<i32, FromVariantError> for SCode {
    open spec fn convertible(val: i32) -> bool {
        true
    }

    open spec fn converted(val: i32, out: Result<SCode, FromVariantError>) -> bool {
        out == Ok::<SCode, FromVariantError>(SCode(val))
    }

    fn can_convert(val: &i32) -> (b: bool) {
        true
    }

    fn try_convert(val: i32) -> (out: Result<SCode, FromVariantError>) {
        Ok(SCode::from(val))
    }
}

impl TryConvert<Currency, IntoVariantError> for Cy {
    open spec fn convertible(val: Currency) -> bool {
        true
    }

    open spec fn converted(val: Currency, out: Result<Cy, IntoVariantError>) -> bool {
        out == Ok::<Cy, IntoVariantError>(Cy { int64: val.0 })
    }

    fn can_convert(val: &Currency) -> (b: bool) {
        true
    }

    fn try_convert(val: Currency) -> (out: Result<Cy, IntoVariantError>) {
        Ok(Cy::from(val))
    }
}

impl TryConvert<Cy, FromVariantError> for Currency {
    open spec fn convertible(val: Cy) -> bool {
        true
    }

    open spec fn converted(val: Cy, out: Result<Currency, FromVariantError>) -> bool {
        out == Ok::<Currency, FromVariantError>(Currency(val.int64))
    }

    fn can_convert(val: &Cy) -> (b: bool) {
        true
    }

    fn try_convert(val: Cy) -> (out: Result<Currency, FromVariantError>) {
        Ok(Currency::from(val))
    }
}

impl TryConvert<Date, IntoVariantError> for u64 {
    open spec fn convertible(val: Date) -> bool {
        true
    }

    open spec fn converted(val: Date, out: Result<u64, IntoVariantError>) -> bool {
        out == Ok::<u64, IntoVariantError>(val.0)
    }

    fn can_convert(val: &Date) -> (b: bool) {
        true
    }

    fn try_convert(val: Date) -> (out: Result<u64, IntoVariantError>) {
        Ok(u64::from(val))
    }
}

impl TryConvert<u64, FromVariantError> for Date {
    open spec fn convertible(val: u64) -> bool {
        true
    }

    open spec fn converted(val: u64, out: Result<Date, FromVariantError>) -> bool {
        out == Ok::<Date, FromVariantError>(Date(val))
    }

    fn can_convert(val: &u64) -> (b: bool) {
        true
    }

    fn try_convert(val: u64) -> (out: Result<Date, FromVariantError>) {
        Ok(Date::from(val))
    }
}

impl TryConvert<Int, IntoVariantError> for i32 {
    open spec fn convertible(val: Int) -> bool {
        true
    }

    open spec fn converted(val: Int, out: Result<i32, IntoVariantError>) -> bool {
        out == Ok::<i32, IntoVariantError>(val.0)
    }

    fn can_convert(val: &Int) -> (b: bool) {
        true
    }

    fn try_convert(val: Int) -> (out: Result<i32, IntoVariantError>) {
        Ok(i32::from(val))
    }
}

impl TryConvert<i32, FromVariantError> for Int {
    open spec fn convertible(val: i32) -> bool {
        true
    }

    open spec fn converted(val: i32, out: Result<Int, FromVariantError>) -> bool {
        out == Ok::<Int, FromVariantError>(Int(val))
    }

    fn can_convert(val: &i32) -> (b: bool) {
        true
    }

    fn try_convert(val: i32) -> (out: Result<Int, FromVariantError>) {
        Ok(Int::from(val))
    }
}

impl TryConvert<UInt, IntoVariantError> for u32 {
    open spec fn convertible(val: UInt) -> bool {
        true
    }

    open spec fn converted(val: UInt, out: Result<u32, IntoVariantError>) -> bool {
        out == Ok::<u32, IntoVariantError>(val.0)
    }

    fn can_convert(val: &UInt) -> (b: bool) {
        true
    }

    fn try_convert(val: UInt) -> (out: Result<u32, IntoVariantError>) {
        Ok(u32::from(val))
    }
}

impl TryConvert<u32, FromVariantError> for UInt {
    open spec fn convertible(val: u32) -> bool {
        true
    }

    open spec fn converted(val: u32, out: Result<UInt, FromVariantError>) -> bool {
        out == Ok::<UInt, FromVariantError>(UInt(val))
    }

    fn can_convert(val: &u32) -> (b: bool) {
        true
    }

    fn try_convert(val: u32) -> (out: Result<UInt, FromVariantError>) {
        Ok(UInt::from(val))
    }
}

impl TryConvert<Box<u8>, IntoVariantError> for Option<Box<u8>> {
    open spec fn convertible(val: Box<u8>) -> bool {
        true
    }

    open spec fn converted(val: Box<u8>, out: Result<Option<Box<u8>>, IntoVariantError>) -> bool {
        out == Ok::<Option<Box<u8>>, IntoVariantError>(Some(val))
    }

    fn can_convert(val: &Box<u8>) -> (b: bool) {
        true
    }

    fn try_convert(val: Box<u8>) -> (out: Result<Option<Box<u8>>, IntoVariantError>) {
        Ok(Some(val))
    }
}

impl TryConvert<Option<Box<u8>>, FromVariantError> for Box<u8> {
    open spec fn convertible(val: Option<Box<u8>>) -> bool {
        true
    }

    open spec fn converted(val: Option<Box<u8>>, out: Result<Box<u8>, FromVariantError>) -> bool {
        match val {
            Some(p) => out == Ok::<Box<u8>, FromVariantError>(p),
            None => out == Err::<Box<u8>, FromVariantError>(FromVariantError::VariantPtrNull),
        }
    }

    fn can_convert(val: &Option<Box<u8>>) -> (b: bool) {
        true
    }

    fn try_convert(val: Option<Box<u8>>) -> (out: Result<Box<u8>, FromVariantError>) {
        match val {
            Some(p) => Ok(p),
            None => Err(FromVariantError::VariantPtrNull),
        }
    }
}

impl TryConvert<Box<i16>, IntoVariantError> for Option<Box<i16>> {
    open spec fn convertible(val: Box<i16>) -> bool {
        true
    }

    open spec fn converted(
        val: Box<i16>,
        out: Result<Option<Box<i16>>, IntoVariantError>,
    ) -> bool {
        out == Ok::<Option<Box<i16>>, IntoVariantError>(Some(val))
    }

    fn can_convert(val: &Box<i16>) -> (b: bool) {
        true
    }

    fn try_convert(val: Box<i16>) -> (out: Result<Option<Box<i16>>, IntoVariantError>) {
        Ok(Some(val))
    }
}

impl TryConvert<Option<Box<i16>>, FromVariantError> for Box<i16> {
    open spec fn convertible(val: Option<Box<i16>>) -> bool {
        true
    }

    open spec fn converted(
        val: Option<Box<i16>>,
        out: Result<Box<i16>, FromVariantError>,
    ) -> bool {
        match val {
            Some(p) => out == Ok::<Box<i16>, FromVariantError>(p),
            None => out == Err::<Box<i16>, FromVariantError>(FromVariantError::VariantPtrNull),
        }
    }

    fn can_convert(val: &Option<Box<i16>>) -> (b: bool) {
        true
    }

    fn try_convert(val: Option<Box<i16>>) -> (out: Result<Box<i16>, FromVariantError>) {
        match val {
            Some(p) => Ok(p),
            None => Err(FromVariantError::VariantPtrNull),
        }
    }
}

impl TryConvert<Box<i32>, IntoVariantError> for Option<Box<i32>> {
    open spec fn convertible(val: Box<i32>) -> bool {
        true
    }

    open spec fn converted(
        val: Box<i32>,
        out: Result<Option<Box<i32>>, IntoVariantError>,
    ) -> bool {
        out == Ok::<Option<Box<i32>>, IntoVariantError>(Some(val))
    }

    fn can_convert(val: &Box<i32>) -> (b: bool) {
        true
    }

    fn try_convert(val: Box<i32>) -> (out: Result<Option<Box<i32>>, IntoVariantError>) {
        Ok(Some(val))
    }
}

impl TryConvert<Option<Box<i32>>, FromVariantError> for Box<i32> {
    open spec fn convertible(val: Option<Box<i32>>) -> bool {
        true
    }

    open spec fn converted(
        val: Option<Box<i32>>,
        out: Result<Box<i32>, FromVariantError>,
    ) -> bool {
        match val {
            Some(p) => out == Ok::<Box<i32>, FromVariantError>(p),
            None => out == Err::<Box<i32>, FromVariantError>(FromVariantError::VariantPtrNull),
        }
    }

    fn can_convert(val: &Option<Box<i32>>) -> (b: bool) {
        true
    }

    fn try_convert(val: Option<Box<i32>>) -> (out: Result<Box<i32>, FromVariantError>) {
        match val {
            Some(p) => Ok(p),
            None => Err(FromVariantError::VariantPtrNull),
        }
    }
}

impl TryConvert<Box<i64>, IntoVariantError> for Option<Box<i64>> {
    open spec fn convertible(val: Box<i64>) -> bool {
        true
    }

    open spec fn converted(
        val: Box<i64>,
        out: Result<Option<Box<i64>>, IntoVariantError>,
    ) -> bool {
        out == Ok::<Option<Box<i64>>, IntoVariantError>(Some(val))
    }

    fn can_convert(val: &Box<i64>) -> (b: bool) {
        true
    }

    fn try_convert(val: Box<i64>) -> (out: Result<Option<Box<i64>>, IntoVariantError>) {
        Ok(Some(val))
    }
}

impl TryConvert<Option<Box<i64>>, FromVariantError> for Box<i64> {
    open spec fn convertible(val: Option<Box<i64>>) -> bool {
        true
    }

    open spec fn converted(
        val: Option<Box<i64>>,
        out: Result<Box<i64>, FromVariantError>,
    ) -> bool {
        match val {
            Some(p) => out == Ok::<Box<i64>, FromVariantError>(p),
            None => out == Err::<Box<i64>, FromVariantError>(FromVariantError::VariantPtrNull),
        }
    }

    fn can_convert(val: &Option<Box<i64>>) -> (b: bool) {
        true
    }

    fn try_convert(val: Option<Box<i64>>) -> (out: Result<Box<i64>, FromVariantError>) {
        match val {
            Some(p) => Ok(p),
            None => Err(FromVariantError::VariantPtrNull),
        }
    }
}

impl TryConvert<Box<i8>, IntoVariantError> for Option<Box<i8>> {
    open spec fn convertible(val: Box<i8>) -> bool {
        true
    }

    open spec fn converted(val: Box<i8>, out: Result<Option<Box<i8>>, IntoVariantError>) -> bool {
        out == Ok::<Option<Box<i8>>, IntoVariantError>(Some(val))
    }

    fn can_convert(val: &Box<i8>) -> (b: bool) {
        true
    }

    fn try_convert(val: Box<i8>) -> (out: Result<Option<Box<i8>>, IntoVariantError>) {
        Ok(Some(val))
    }
}

impl TryConvert<Option<Box<i8>>, FromVariantError> for Box<i8> {
    open spec fn convertible(val: Option<Box<i8>>) -> bool {
        true
    }

    open spec fn converted(val: Option<Box<i8>>, out: Result<Box<i8>, FromVariantError>) -> bool {
        match val {
            Some(p) => out == Ok::<Box<i8>, FromVariantError>(p),
            None => out == Err::<Box<i8>, FromVariantError>(FromVariantError::VariantPtrNull),
        }
    }

    fn can_convert(val: &Option<Box<i8>>) -> (b: bool) {
        true
    }

    fn try_convert(val: Option<Box<i8>>) -> (out: Result<Box<i8>, FromVariantError>) {
        match val {
            Some(p) => Ok(p),
            None => Err(FromVariantError::VariantPtrNull),
        }
    }
}

impl TryConvert<Box<u16>, IntoVariantError> for Option<Box<u16>> {
    open spec fn convertible(val: Box<u16>) -> bool {
        true
    }

    open spec fn converted(
        val: Box<u16>,
        out: Result<Option<Box<u16>>, IntoVariantError>,
    ) -> bool {
        out == Ok::<Option<Box<u16>>, IntoVariantError>(Some(val))
    }

    fn can_convert(val: &Box<u16>) -> (b: bool) {
        true
    }

    fn try_convert(val: Box<u16>) -> (out: Result<Option<Box<u16>>, IntoVariantError>) {
        Ok(Some(val))
    }
}

impl TryConvert<Option<Box<u16>>, FromVariantError> for Box<u16> {
    open spec fn convertible(val: Option<Box<u16>>) -> bool {
        true
    }

    open spec fn converted(
        val: Option<Box<u16>>,
        out: Result<Box<u16>, FromVariantError>,
    ) -> bool {
        match val {
            Some(p) => out == Ok::<Box<u16>, FromVariantError>(p),
            None => out == Err::<Box<u16>, FromVariantError>(FromVariantError::VariantPtrNull),
        }
    }

    fn can_convert(val: &Option<Box<u16>>) -> (b: bool) {
        true
    }

    fn try_convert(val: Option<Box<u16>>) -> (out: Result<Box<u16>, FromVariantError>) {
        match val {
            Some(p) => Ok(p),
            None => Err(FromVariantError::VariantPtrNull),
        }
    }
}

impl TryConvert<Box<u32>, IntoVariantError> for Option<Box<u32>> {
    open spec fn convertible(val: Box<u32>) -> bool {
        true
    }

    open spec fn converted(
        val: Box<u32>,
        out: Result<Option<Box<u32>>, IntoVariantError>,
    ) -> bool {
        out == Ok::<Option<Box<u32>>, IntoVariantError>(Some(val))
    }

    fn can_convert(val: &Box<u32>) -> (b: bool) {
        true
    }

    fn try_convert(val: Box<u32>) -> (out: Result<Option<Box<u32>>, IntoVariantError>) {
        Ok(Some(val))
    }
}

impl TryConvert<Option<Box<u32>>, FromVariantError> for Box<u32> {
    open spec fn convertible(val: Option<Box<u32>>) -> bool {
        true
    }

    open spec fn converted(
        val: Option<Box<u32>>,
        out: Result<Box<u32>, FromVariantError>,
    ) -> bool {
        match val {
            Some(p) => out == Ok::<Box<u32>, FromVariantError>(p),
            None => out == Err::<Box<u32>, FromVariantError>(FromVariantError::VariantPtrNull),
        }
    }

    fn can_convert(val: &Option<Box<u32>>) -> (b: bool) {
        true
    }

    fn try_convert(val: Option<Box<u32>>) -> (out: Result<Box<u32>, FromVariantError>) {
        match val {
            Some(p) => Ok(p),
            None => Err(FromVariantError::VariantPtrNull),
        }
    }
}

impl TryConvert<Box<u64>, IntoVariantError> for Option<Box<u64>> {
    open spec fn convertible(val: Box<u64>) -> bool {
        true
    }

    open spec fn converted(
        val: Box<u64>,
        out: Result<Option<Box<u64>>, IntoVariantError>,
    ) -> bool {
        out == Ok::<Option<Box<u64>>, IntoVariantError>(Some(val))
    }

    fn can_convert(val: &Box<u64>) -> (b: bool) {
        true
    }

    fn try_convert(val: Box<u64>) -> (out: Result<Option<Box<u64>>, IntoVariantError>) {
        Ok(Some(val))
    }
}

impl TryConvert<Option<Box<u64>>, FromVariantError> for Box<u64> {
    open spec fn convertible(val: Option<Box<u64>>) -> bool {
        true
    }

    open spec fn converted(
        val: Option<Box<u64>>,
        out: Result<Box<u64>, FromVariantError>,
    ) -> bool {
        match val {
            Some(p) => out == Ok::<Box<u64>, FromVariantError>(p),
            None => out == Err::<Box<u64>, FromVariantError>(FromVariantError::VariantPtrNull),
        }
    }

    fn can_convert(val: &Option<Box<u64>>) -> (b: bool) {
        true
    }

    fn try_convert(val: Option<Box<u64>>) -> (out: Result<Box<u64>, FromVariantError>) {
        match val {
            Some(p) => Ok(p),
            None => Err(FromVariantError::VariantPtrNull),
        }
    }
}

impl TryConvert<Box<F32Bits>, IntoVariantError> for Option<Box<u32>> {
    open spec fn convertible(val: Box<F32Bits>) -> bool {
        true
    }

    open spec fn converted(
        val: Box<F32Bits>,
        out: Result<Option<Box<u32>>, IntoVariantError>,
    ) -> bool {
        out == Ok::<Option<Box<u32>>, IntoVariantError>(Some(Box::new(val.0)))
    }

    fn can_convert(val: &Box<F32Bits>) -> (b: bool) {
        true
    }

    fn try_convert(val: Box<F32Bits>) -> (out: Result<Option<Box<u32>>, IntoVariantError>) {
        Ok(Some(Box::new(u32::from(*val))))
    }
}

impl TryConvert<Option<Box<u32>>, FromVariantError> for Box<F32Bits> {
    open spec fn convertible(val: Option<Box<u32>>) -> bool {
        true
    }

    open spec fn converted(
        val: Option<Box<u32>>,
        out: Result<Box<F32Bits>, FromVariantError>,
    ) -> bool {
        match val {
            Some(p) => out == Ok::<Box<F32Bits>, FromVariantError>(Box::new(F32Bits(*p))),
            None => out == Err::<Box<F32Bits>, FromVariantError>(FromVariantError::VariantPtrNull),
        }
    }

    fn can_convert(val: &Option<Box<u32>>) -> (b: bool) {
        true
    }

    fn try_convert(val: Option<Box<u32>>) -> (out: Result<Box<F32Bits>, FromVariantError>) {
        match val {
            Some(p) => Ok(Box::new(F32Bits::from(*p))),
            None => Err(FromVariantError::VariantPtrNull),
        }
    }
}

impl TryConvert<Box<F64Bits>, IntoVariantError> for Option<Box<u64>> {
    open spec fn convertible(val: Box<F64Bits>) -> bool {
        true
    }

    open spec fn converted(
        val: Box<F64Bits>,
        out: Result<Option<Box<u64>>, IntoVariantError>,
    ) -> bool {
        out == Ok::<Option<Box<u64>>, IntoVariantError>(Some(Box::new(val.0)))
    }

    fn can_convert(val: &Box<F64Bits>) -> (b: bool) {
        true
    }

    fn try_convert(val: Box<F64Bits>) -> (out: Result<Option<Box<u64>>, IntoVariantError>) {
        Ok(Some(Box::new(u64::from(*val))))
    }
}

impl TryConvert<Option<Box<u64>>, FromVariantError> for Box<F64Bits> {
    open spec fn convertible(val: Option<Box<u64>>) -> bool {
        true
    }

    open spec fn converted(
        val: Option<Box<u64>>,
        out: Result<Box<F64Bits>, FromVariantError>,
    ) -> bool {
        match val {
            Some(p) => out == Ok::<Box<F64Bits>, FromVariantError>(Box::new(F64Bits(*p))),
            None => out == Err::<Box<F64Bits>, FromVariantError>(FromVariantError::VariantPtrNull),
        }
    }

    fn can_convert(val: &Option<Box<u64>>) -> (b: bool) {
        true
    }

    fn try_convert(val: Option<Box<u64>>) -> (out: Result<Box<F64Bits>, FromVariantError>) {
        match val {
            Some(p) => Ok(Box::new(F64Bits::from(*p))),
            None => Err(FromVariantError::VariantPtrNull),
        }
    }
}

impl TryConvert<Box<VariantBool>, IntoVariantError> for Option<Box<i16>> {
    open spec fn convertible(val: Box<VariantBool>) -> bool {
        true
    }

    open spec fn converted(
        val: Box<VariantBool>,
        out: Result<Option<Box<i16>>, IntoVariantError>,
    ) -> bool {
        out == Ok::<Option<Box<i16>>, IntoVariantError>(
            Some(
                Box::new(
                    if val.0 {
                        VARIANT_TRUE
                    } else {
                        0
                    },
                ),
            ),
        )
    }

    fn can_convert(val: &Box<VariantBool>) -> (b: bool) {
        true
    }

    fn try_convert(val: Box<VariantBool>) -> (out: Result<Option<Box<i16>>, IntoVariantError>) {
        Ok(Some(Box::new(i16::from(*val))))
    }
}

impl TryConvert<Option<Box<i16>>, FromVariantError> for Box<VariantBool> {
    open spec fn convertible(val: Option<Box<i16>>) -> bool {
        true
    }

    open spec fn converted(
        val: Option<Box<i16>>,
        out: Result<Box<VariantBool>, FromVariantError>,
    ) -> bool {
        match val {
            Some(p) => out == Ok::<Box<VariantBool>, FromVariantError>(
                Box::new(VariantBool(*p < 0)),
            ),
            None => out == Err::<Box<VariantBool>, FromVariantError>(
                FromVariantError::VariantPtrNull,
            ),
        }
    }

    fn can_convert(val: &Option<Box<i16>>) -> (b: bool) {
        true
    }

    fn try_convert(val: Option<Box<i16>>) -> (out: Result<Box<VariantBool>, FromVariantError>) {
        match val {
            Some(p) => Ok(Box::new(VariantBool::from(*p))),
            None => Err(FromVariantError::VariantPtrNull),
        }
    }
}

impl TryConvert<Box<SCode>, IntoVariantError> for Option<Box<i32>> {
    open spec fn convertible(val: Box<SCode>) -> bool {
        true
    }

    open spec fn converted(
        val: Box<SCode>,
        out: Result<Option<Box<i32>>, IntoVariantError>,
    ) -> bool {
        out == Ok::<Option<Box<i32>>, IntoVariantError>(Some(Box::new(val.0)))
    }

    fn can_convert(val: &Box<SCode>) -> (b: bool) {
        true
    }

    fn try_convert(val: Box<SCode>) -> (out: Result<Option<Box<i32>>, IntoVariantError>) {
        Ok(Some(Box::new(i32::from(*val))))
    }
}

impl TryConvert<Option<Box<i32>>, FromVariantError> for Box<SCode> {
    open spec fn convertible(val: Option<Box<i32>>) -> bool {
        true
    }

    open spec fn converted(
        val: Option<Box<i32>>,
        out: Result<Box<SCode>, FromVariantError>,
    ) -> bool {
        match val {
            Some(p) => out == Ok::<Box<SCode>, FromVariantError>(Box::new(SCode(*p))),
            None => out == Err::<Box<SCode>, FromVariantError>(FromVariantError::VariantPtrNull),
        }
    }

    fn can_convert(val: &Option<Box<i32>>) -> (b: bool) {
        true
    }

    fn try_convert(val: Option<Box<i32>>) -> (out: Result<Box<SCode>, FromVariantError>) {
        match val {
            Some(p) => Ok(Box::new(SCode::from(*p))),
            None => Err(FromVariantError::VariantPtrNull),
        }
    }
}

impl TryConvert<Box<Currency>, IntoVariantError> for Option<Box<Cy>> {
    open spec fn convertible(val: Box<Currency>) -> bool {
        true
    }

    open spec fn converted(
        val: Box<Currency>,
        out: Result<Option<Box<Cy>>, IntoVariantError>,
    ) -> bool {
        out == Ok::<Option<Box<Cy>>, IntoVariantError>(Some(Box::new(Cy { int64: val.0 })))
    }

    fn can_convert(val: &Box<Currency>) -> (b: bool) {
        true
    }

    fn try_convert(val: Box<Currency>) -> (out: Result<Option<Box<Cy>>, IntoVariantError>) {
        Ok(Some(Box::new(Cy::from(*val))))
    }
}

impl TryConvert<Option<Box<Cy>>, FromVariantError> for Box<Currency> {
    open spec fn convertible(val: Option<Box<Cy>>) -> bool {
        true
    }

    open spec fn converted(
        val: Option<Box<Cy>>,
        out: Result<Box<Currency>, FromVariantError>,
    ) -> bool {
        match val {
            Some(p) => out == Ok::<Box<Currency>, FromVariantError>(Box::new(Currency(p.int64))),
            None => out == Err::<Box<Currency>, FromVariantError>(FromVariantError::VariantPtrNull),
        }
    }

    fn can_convert(val: &Option<Box<Cy>>) -> (b: bool) {
        true
    }

    fn try_convert(val: Option<Box<Cy>>) -> (out: Result<Box<Currency>, FromVariantError>) {
        match val {
            Some(p) => Ok(Box::new(Currency::from(*p))),
            None => Err(FromVariantError::VariantPtrNull),
        }
    }
}

impl TryConvert<Box<Date>, IntoVariantError> for Option<Box<u64>> {
    open spec fn convertible(val: Box<Date>) -> bool {
        true
    }

    open spec fn converted(
        val: Box<Date>,
        out: Result<Option<Box<u64>>, IntoVariantError>,
    ) -> bool {
        out == Ok::<Option<Box<u64>>, IntoVariantError>(Some(Box::new(val.0)))
    }

    fn can_convert(val: &Box<Date>) -> (b: bool) {
        true
    }

    fn try_convert(val: Box<Date>) -> (out: Result<Option<Box<u64>>, IntoVariantError>) {
        Ok(Some(Box::new(u64::from(*val))))
    }
}

impl TryConvert<Option<Box<u64>>, FromVariantError> for Box<Date> {
    open spec fn convertible(val: Option<Box<u64>>) -> bool {
        true
    }

    open spec fn converted(
        val: Option<Box<u64>>,
        out: Result<Box<Date>, FromVariantError>,
    ) -> bool {
        match val {
            Some(p) => out == Ok::<Box<Date>, FromVariantError>(Box::new(Date(*p))),
            None => out == Err::<Box<Date>, FromVariantError>(FromVariantError::VariantPtrNull),
        }
    }

    fn can_convert(val: &Option<Box<u64>>) -> (b: bool) {
        true
    }

    fn try_convert(val: Option<Box<u64>>) -> (out: Result<Box<Date>, FromVariantError>) {
        match val {
            Some(p) => Ok(Box::new(Date::from(*p))),
            None => Err(FromVariantError::VariantPtrNull),
        }
    }
}

impl TryConvert<Box<Int>, IntoVariantError> for Option<Box<i32>> {
    open spec fn convertible(val: Box<Int>) -> bool {
        true
    }

    open spec fn converted(
        val: Box<Int>,
        out: Result<Option<Box<i32>>, IntoVariantError>,
    ) -> bool {
        out == Ok::<Option<Box<i32>>, IntoVariantError>(Some(Box::new(val.0)))
    }

    fn can_convert(val: &Box<Int>) -> (b: bool) {
        true
    }

    fn try_convert(val: Box<Int>) -> (out: Result<Option<Box<i32>>, IntoVariantError>) {
        Ok(Some(Box::new(i32::from(*val))))
    }
}

impl TryConvert<Option<Box<i32>>, FromVariantError> for Box<Int> {
    open spec fn convertible(val: Option<Box<i32>>) -> bool {
        true
    }

    open spec fn converted(
        val: Option<Box<i32>>,
        out: Result<Box<Int>, FromVariantError>,
    ) -> bool {
        match val {
            Some(p) => out == Ok::<Box<Int>, FromVariantError>(Box::new(Int(*p))),
            None => out == Err::<Box<Int>, FromVariantError>(FromVariantError::VariantPtrNull),
        }
    }

    fn can_convert(val: &Option<Box<i32>>) -> (b: bool) {
        true
    }

    fn try_convert(val: Option<Box<i32>>) -> (out: Result<Box<Int>, FromVariantError>) {
        match val {
            Some(p) => Ok(Box::new(Int::from(*p))),
            None => Err(FromVariantError::VariantPtrNull),
        }
    }
}

impl TryConvert<Box<UInt>, IntoVariantError> for Option<Box<u32>> {
    open spec fn convertible(val: Box<UInt>) -> bool {
        true
    }

    open spec fn converted(
        val: Box<UInt>,
        out: Result<Option<Box<u32>>, IntoVariantError>,
    ) -> bool {
        out == Ok::<Option<Box<u32>>, IntoVariantError>(Some(Box::new(val.0)))
    }

    fn can_convert(val: &Box<UInt>) -> (b: bool) {
        true
    }

    fn try_convert(val: Box<UInt>) -> (out: Result<Option<Box<u32>>, IntoVariantError>) {
        Ok(Some(Box::new(u32::from(*val))))
    }
}

impl TryConvert<Option<Box<u32>>, FromVariantError> for Box<UInt> {
    open spec fn convertible(val: Option<Box<u32>>) -> bool {
        true
    }

    open spec fn converted(
        val: Option<Box<u32>>,
        out: Result<Box<UInt>, FromVariantError>,
    ) -> bool {
        match val {
            Some(p) => out == Ok::<Box<UInt>, FromVariantError>(Box::new(UInt(*p))),
            None => out == Err::<Box<UInt>, FromVariantError>(FromVariantError::VariantPtrNull),
        }
    }

    fn can_convert(val: &Option<Box<u32>>) -> (b: bool) {
        true
    }

    fn try_convert(val: Option<Box<u32>>) -> (out: Result<Box<UInt>, FromVariantError>) {
        match val {
            Some(p) => Ok(Box::new(UInt::from(*p))),
            None => Err(FromVariantError::VariantPtrNull),
        }
    }
}
impl TryConvert<DecWrapper, IntoVariantError> for DecimalRecord {
    open spec fn convertible(val: DecWrapper) -> bool {
        true
    }

    open spec fn converted(val: DecWrapper, out: Result<DecimalRecord, IntoVariantError>) -> bool {
        &&& out == Ok::<DecimalRecord, IntoVariantError>(pack_spec(val@))
        &&& val@.len() == 16
        &&& val@[2] <= MAX_SCALE
    }

    fn can_convert(val: &DecWrapper) -> (b: bool) {
        true
    }

    fn try_convert(val: DecWrapper) -> (out: Result<DecimalRecord, IntoVariantError>) {
        Ok(DecimalRecord::from(val))
    }
}

impl TryConvert<DecimalRecord, FromVariantError> for DecWrapper {
    open spec fn convertible(val: DecimalRecord) -> bool {
        true
    }

    open spec fn converted(val: DecimalRecord, out: Result<DecWrapper, FromVariantError>) -> bool {
        if val.scale <= MAX_SCALE {
            out matches Ok(w) && w@ == unpack_spec(val)
        } else {
            out == Err::<DecWrapper, FromVariantError>(FromVariantError::DecimalScale)
        }
    }

    fn can_convert(val: &DecimalRecord) -> (b: bool) {
        true
    }

    fn try_convert(val: DecimalRecord) -> (out: Result<DecWrapper, FromVariantError>) {
        DecWrapper::try_from(val)
    }
}

impl TryConvert<U16String, IntoVariantError> for Bstr {
    open spec fn convertible(val: U16String) -> bool {
        true
    }

    open spec fn converted(val: U16String, out: Result<Bstr, IntoVariantError>) -> bool {
        out matches Ok(b) && b@ == wide_units(val)
    }

    fn can_convert(val: &U16String) -> (b: bool) {
        true
    }

    fn try_convert(val: U16String) -> (out: Result<Bstr, IntoVariantError>) {
        Ok(Bstr::allocate(val))
    }
}

impl TryConvert<Bstr, FromVariantError> for U16String {
    open spec fn convertible(val: Bstr) -> bool {
        true
    }

    open spec fn converted(val: Bstr, out: Result<U16String, FromVariantError>) -> bool {
        out matches Ok(s) && wide_units(s) == val@
    }

    fn can_convert(val: &Bstr) -> (b: bool) {
        true
    }

    fn try_convert(val: Bstr) -> (out: Result<U16String, FromVariantError>) {
        Ok(val.into_wide())
    }
}

impl TryConvert<Box<DecWrapper>, IntoVariantError> for Option<Box<DecimalRecord>> {
    open spec fn convertible(val: Box<DecWrapper>) -> bool {
        true
    }

    open spec fn converted(
        val: Box<DecWrapper>,
        out: Result<Option<Box<DecimalRecord>>, IntoVariantError>,
    ) -> bool {
        &&& out == Ok::<Option<Box<DecimalRecord>>, IntoVariantError>(
            Some(Box::new(pack_spec(val@))),
        )
        &&& val@.len() == 16
        &&& val@[2] <= MAX_SCALE
    }

    fn can_convert(val: &Box<DecWrapper>) -> (b: bool) {
        true
    }

    fn try_convert(val: Box<DecWrapper>) -> (out: Result<
        Option<Box<DecimalRecord>>,
        IntoVariantError,
    >) {
        Ok(Some(Box::new(DecimalRecord::from(*val))))
    }
}

impl TryConvert<Option<Box<DecimalRecord>>, FromVariantError> for Box<DecWrapper> {
    open spec fn convertible(val: Option<Box<DecimalRecord>>) -> bool {
        true
    }

    open spec fn converted(
        val: Option<Box<DecimalRecord>>,
        out: Result<Box<DecWrapper>, FromVariantError>,
    ) -> bool {
        match val {
            Some(p) => if p.scale <= MAX_SCALE {
                out matches Ok(w) && w@ == unpack_spec(*p)
            } else {
                out == Err::<Box<DecWrapper>, FromVariantError>(FromVariantError::DecimalScale)
            },
            None => out == Err::<Box<DecWrapper>, FromVariantError>(
                FromVariantError::VariantPtrNull,
            ),
        }
    }

    fn can_convert(val: &Option<Box<DecimalRecord>>) -> (b: bool) {
        true
    }

    fn try_convert(val: Option<Box<DecimalRecord>>) -> (out: Result<
        Box<DecWrapper>,
        FromVariantError,
    >) {
        match val {
            Some(p) => match DecWrapper::try_from(*p) {
                Ok(w) => Ok(Box::new(w)),
                Err(e) => Err(e),
            },
            None => Err(FromVariantError::VariantPtrNull),
        }
    }
}

impl TryConvert<Box<U16String>, IntoVariantError> for Option<Box<Bstr>> {
    open spec fn convertible(val: Box<U16String>) -> bool {
        true
    }

    open spec fn converted(
        val: Box<U16String>,
        out: Result<Option<Box<Bstr>>, IntoVariantError>,
    ) -> bool {
        out matches Ok(Some(b)) && b@ == wide_units(*val)
    }

    fn can_convert(val: &Box<U16String>) -> (b: bool) {
        true
    }

    fn try_convert(val: Box<U16String>) -> (out: Result<Option<Box<Bstr>>, IntoVariantError>) {
        Ok(Some(Box::new(Bstr::allocate(*val))))
    }
}

impl TryConvert<Option<Box<Bstr>>, FromVariantError> for Box<U16String> {
    open spec fn convertible(val: Option<Box<Bstr>>) -> bool {
        true
    }

    open spec fn converted(
        val: Option<Box<Bstr>>,
        out: Result<Box<U16String>, FromVariantError>,
    ) -> bool {
        match val {
            Some(b) => out matches Ok(s) && wide_units(*s) == b@,
            None => out == Err::<Box<U16String>, FromVariantError>(
                FromVariantError::VariantPtrNull,
            ),
        }
    }

    fn can_convert(val: &Option<Box<Bstr>>) -> (b: bool) {
        true
    }

    fn try_convert(val: Option<Box<Bstr>>) -> (out: Result<Box<U16String>, FromVariantError>) {
        match val {
            Some(b) => {
                let Bstr { units } = *b;
                Ok(Box::new(Bstr { units }.into_wide()))
            },
            None => Err(FromVariantError::VariantPtrNull),
        }
    }
}

/// A checked pointer is stored as its address, which is never null.
impl<T> TryConvert<Ptr<T>, IntoVariantError> for usize {
    open spec fn convertible(val: Ptr<T>) -> bool {
        true
    }

    open spec fn converted(val: Ptr<T>, out: Result<usize, IntoVariantError>) -> bool {
        out == Ok::<usize, IntoVariantError>(val.addr()) && val.addr() != 0
    }

    fn can_convert(val: &Ptr<T>) -> (b: bool) {
        true
    }

    fn try_convert(val: Ptr<T>) -> (out: Result<usize, IntoVariantError>) {
        Ok(val.as_ptr())
    }
}

/// An address is read back through the null check.
impl<T> TryConvert<usize, FromVariantError> for Ptr<T> {
    open spec fn convertible(val: usize) -> bool {
        true
    }

    open spec fn converted(val: usize, out: Result<Ptr<T>, FromVariantError>) -> bool {
        if val == 0 {
            out == Err::<Ptr<T>, FromVariantError>(FromVariantError::VariantPtrNull)
        } else {
            out == Ok::<Ptr<T>, FromVariantError>(Ptr::<T>::at(val))
        }
    }

    fn can_convert(val: &usize) -> (b: bool) {
        true
    }

    fn try_convert(val: usize) -> (out: Result<Ptr<T>, FromVariantError>) {
        match Ptr::with_checked(val) {
            Some(p) => Ok(p),
            None => Err(FromVariantError::VariantPtrNull),
        }
    }
}

impl<T> TryConvert<Box<Ptr<T>>, IntoVariantError> for Option<Box<usize>> {
    open spec fn convertible(val: Box<Ptr<T>>) -> bool {
        true
    }

    open spec fn converted(
        val: Box<Ptr<T>>,
        out: Result<Option<Box<usize>>, IntoVariantError>,
    ) -> bool {
        out == Ok::<Option<Box<usize>>, IntoVariantError>(Some(Box::new(val.addr())))
            && val.addr() != 0
    }

    fn can_convert(val: &Box<Ptr<T>>) -> (b: bool) {
        true
    }

    fn try_convert(val: Box<Ptr<T>>) -> (out: Result<Option<Box<usize>>, IntoVariantError>) {
        Ok(Some(Box::new(val.as_ptr())))
    }
}

/// Both the pointer and the address it points at pass the null check.
impl<T> TryConvert<Option<Box<usize>>, FromVariantError> for Box<Ptr<T>> {
    open spec fn convertible(val: Option<Box<usize>>) -> bool {
        true
    }

    open spec fn converted(
        val: Option<Box<usize>>,
        out: Result<Box<Ptr<T>>, FromVariantError>,
    ) -> bool {
        match val {
            Some(a) if *a != 0 => out == Ok::<Box<Ptr<T>>, FromVariantError>(
                Box::new(Ptr::<T>::at(*a)),
            ),
            _ => out == Err::<Box<Ptr<T>>, FromVariantError>(FromVariantError::VariantPtrNull),
        }
    }

    fn can_convert(val: &Option<Box<usize>>) -> (b: bool) {
        true
    }

    fn try_convert(val: Option<Box<usize>>) -> (out: Result<Box<Ptr<T>>, FromVariantError>) {
        match val {
            Some(a) => match Ptr::with_checked(*a) {
                Some(p) => Ok(Box::new(p)),
                None => Err(FromVariantError::VariantPtrNull),
            },
            None => Err(FromVariantError::VariantPtrNull),
        }
    }
}

} // verus!

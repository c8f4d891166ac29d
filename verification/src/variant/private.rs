//! The payload-access registrations: for each supported native type its tag,
//! the field that a record stores for it, and the accessors of that field.

use crate::array::{
    lemma_array_never_refused, lemma_cells_round_trip, same_elements, SafeArrayElement,
};
use crate::bridge::TryConvert;
use crate::bstr::{wide_units, Bstr};
use crate::decimal::{lemma_pack_unpack, same_decimal, DecimalRecord};
use crate::errors::{FromVariantError, IntoVariantError};
use crate::ptr::{IDispatch, IUnknown, Ptr, Void};
use crate::record::{
    read_slot, record_of, tagged_record, written, Payload, Primary, SafeArray, Slot,
    VariantRecord, VT_ARRAY, VT_BOOL, VT_BSTR, VT_BYREF, VT_CY, VT_DATE, VT_DECIMAL,
    VT_DISPATCH, VT_EMPTY, VT_ERROR, VT_I1, VT_I2, VT_I4, VT_I8, VT_INT, VT_NULL, VT_PARRAY,
    VT_PBOOL, VT_PBSTR, VT_PCY, VT_PDATE, VT_PDECIMAL, VT_PDISPATCH, VT_PERROR, VT_PI1, VT_PI2,
    VT_PI4, VT_PI8, VT_PINT, VT_PR4, VT_PR8, VT_PUI1, VT_PUI2, VT_PUI4, VT_PUI8, VT_PUINT,
    VT_PUNKNOWN, VT_R4, VT_R8, VT_UI1, VT_UI2, VT_UI4, VT_UI8, VT_UINT, VT_UNKNOWN, VT_VARIANT,
};
use crate::types::{
    Currency, Cy, Date, DecWrapper, F32Bits, F64Bits, Int, SCode, UInt, VariantBool,
};
use crate::variant::{Variant, VariantExt, VtEmpty, VtNull};
use vstd::pervasive::unreached;
use vstd::prelude::*;
use widestring::U16String;

verus! {

/// Closes the set of registered types.
pub trait Sealed {

}

/// The registration of a native type.
pub trait VariantAccess: Sized + Sealed {
    /// The field that a record stores for the type.
    type Field: TryConvert<Self, IntoVariantError>;

    /// The discriminant tag of the type.
    const VTYPE: u32;

    /// The discriminant tag of the type, for contracts.
    spec fn spec_vtype() -> u32;

    /// Where a field goes when it is written, and what is stored there.
    spec fn spec_into_var(inner: Self::Field) -> Slot;

    /// Whether a slot holds a field of this type: the type's member is the
    /// active one.
    spec fn spec_readable(slot: Slot) -> bool;

    /// The field that a readable slot holds.
    spec fn spec_from_var(slot: Slot) -> Self::Field;

    /// Whether two values stand for the same payload.
    spec fn same(a: Self, b: Self) -> bool;

    /// Reads the type's field out of the two halves of a record.
    fn from_var(n1: &Primary, n3: Payload) -> (field: Self::Field)
        requires
            Self::spec_readable(read_slot(Self::spec_vtype(), *n1, n3)),
        ensures
            field == Self::spec_from_var(read_slot(Self::spec_vtype(), *n1, n3)),
    ;

    /// Tests whether the two halves of a record hold the type's field.
    fn readable(n1: &Primary, n3: &Payload) -> (b: bool)
        ensures
            b == Self::spec_readable(read_slot(Self::spec_vtype(), *n1, *n3)),
    ;

    /// Borrows the type's field in the two halves of a record.
    fn field_ref<'a>(n1: &'a Primary, n3: &'a Payload) -> (field: &'a Self::Field)
        requires
            Self::spec_readable(read_slot(Self::spec_vtype(), *n1, *n3)),
        ensures
            *field == Self::spec_from_var(read_slot(Self::spec_vtype(), *n1, *n3)),
    ;

    /// Writes the type's field into the half that holds it, and leaves the
    /// other half as it was.
    fn into_var(inner: Self::Field, n1: &mut Primary, n3: &mut Payload)
        ensures
            written(Self::spec_into_var(inner), *old(n1), *old(n3), *final(n1), *final(n3)),
    ;

    /// The tag is the one that contracts speak of, and fits the 16 bits that
    /// a record has for it.
    proof fn lemma_vtype_fits()
        ensures
            Self::VTYPE == Self::spec_vtype(),
            Self::VTYPE <= 0xFFFF,
    ;

    /// A field that was written can be read, and reads as what was written.
    /// Only the decimal tag stores over the primary half.
    proof fn lemma_read_back(inner: Self::Field)
        ensures
            Self::spec_into_var(inner) is Primary ==> Self::spec_vtype() == VT_DECIMAL,
            ({
                let var = record_of(Self::spec_vtype(), Self::spec_into_var(inner));
                let halves = var.n1.spec_split();
                let slot = read_slot(Self::spec_vtype(), halves.0, halves.1);
                Self::spec_readable(slot) && Self::spec_from_var(slot) == inner
            }),
    ;

    /// Every value of the type can be converted to its field.
    proof fn lemma_convertible(value: Self)
        ensures
            <Self::Field as TryConvert<Self, IntoVariantError>>::convertible(value),
    ;

    /// Converting a value of the type to its field does not fail.
    proof fn lemma_never_refused(value: Self, e: IntoVariantError)
        ensures
            !<Self::Field as TryConvert<Self, IntoVariantError>>::converted(value, Err(e)),
    ;

    /// The field that a value was converted to can be converted back, and
    /// gives a value that stands for the same payload.
    proof fn lemma_there_and_back(
        value: Self,
        field: Self::Field,
        back: Result<Self, FromVariantError>,
    ) where Self: TryConvert<Self::Field, FromVariantError>
        requires
            <Self::Field as TryConvert<Self, IntoVariantError>>::converted(value, Ok(field)),
        ensures
            <Self as TryConvert<Self::Field, FromVariantError>>::convertible(field),
            <Self as TryConvert<Self::Field, FromVariantError>>::converted(field, back) ==> (
            back matches Ok(v) && Self::same(v, value)),
    ;
}

impl Sealed for i64 {

}

impl VariantAccess for i64 {
    type Field = i64;

    const VTYPE: u32 = VT_I8;

    open spec fn spec_vtype() -> u32 {
        VT_I8
    }

    open spec fn spec_into_var(inner: i64) -> Slot {
        Slot::Secondary(Payload::LlVal(inner))
    }

    open spec fn spec_readable(slot: Slot) -> bool {
        slot matches Slot::Secondary(Payload::LlVal(_))
    }

    open spec fn spec_from_var(slot: Slot) -> i64 {
        match slot {
            Slot::Secondary(Payload::LlVal(x)) => x,
            _ => arbitrary(),
        }
    }

    open spec fn same(a: i64, b: i64) -> bool {
        a == b
    }

    fn from_var(n1: &Primary, n3: Payload) -> (field: i64) {
        match n3 {
            Payload::LlVal(x) => x,
            _ => unreached(),
        }
    }

    fn readable(n1: &Primary, n3: &Payload) -> (b: bool) {
        match n3 {
            Payload::LlVal(_) => true,
            _ => false,
        }
    }

    fn field_ref<'a>(n1: &'a Primary, n3: &'a Payload) -> (field: &'a i64) {
        match n3 {
            Payload::LlVal(x) => x,
            _ => unreached(),
        }
    }

    fn into_var(inner: i64, n1: &mut Primary, n3: &mut Payload) {
        *n3 = Payload::LlVal(inner);
    }

    proof fn lemma_vtype_fits() {
    }

    proof fn lemma_read_back(inner: i64) {
    }

    proof fn lemma_convertible(value: i64) {
    }

    proof fn lemma_never_refused(value: i64, e: IntoVariantError) {
    }

    proof fn lemma_there_and_back(value: i64, field: i64, back: Result<i64, FromVariantError>) {
    }
}

impl Sealed for i32 {

}

impl VariantAccess for i32 {
    type Field = i32;

    const VTYPE: u32 = VT_I4;

    open spec fn spec_vtype() -> u32 {
        VT_I4
    }

    open spec fn spec_into_var(inner: i32) -> Slot {
        Slot::Secondary(Payload::LVal(inner))
    }

    open spec fn spec_readable(slot: Slot) -> bool {
        slot matches Slot::Secondary(Payload::LVal(_))
    }

    open spec fn spec_from_var(slot: Slot) -> i32 {
        match slot {
            Slot::Secondary(Payload::LVal(x)) => x,
            _ => arbitrary(),
        }
    }

    open spec fn same(a: i32, b: i32) -> bool {
        a == b
    }

    fn from_var(n1: &Primary, n3: Payload) -> (field: i32) {
        match n3 {
            Payload::LVal(x) => x,
            _ => unreached(),
        }
    }

    fn readable(n1: &Primary, n3: &Payload) -> (b: bool) {
        match n3 {
            Payload::LVal(_) => true,
            _ => false,
        }
    }

    fn field_ref<'a>(n1: &'a Primary, n3: &'a Payload) -> (field: &'a i32) {
        match n3 {
            Payload::LVal(x) => x,
            _ => unreached(),
        }
    }

    fn into_var(inner: i32, n1: &mut Primary, n3: &mut Payload) {
        *n3 = Payload::LVal(inner);
    }

    proof fn lemma_vtype_fits() {
    }

    proof fn lemma_read_back(inner: i32) {
    }

    proof fn lemma_convertible(value: i32) {
    }

    proof fn lemma_never_refused(value: i32, e: IntoVariantError) {
    }

    proof fn lemma_there_and_back(value: i32, field: i32, back: Result<i32, FromVariantError>) {
    }
}

impl Sealed for u8 {

}

impl VariantAccess for u8 {
    type Field = u8;

    const VTYPE: u32 = VT_UI1;

    open spec fn spec_vtype() -> u32 {
        VT_UI1
    }

    open spec fn spec_into_var(inner: u8) -> Slot {
        Slot::Secondary(Payload::BVal(inner))
    }

    open spec fn spec_readable(slot: Slot) -> bool {
        slot matches Slot::Secondary(Payload::BVal(_))
    }

    open spec fn spec_from_var(slot: Slot) -> u8 {
        match slot {
            Slot::Secondary(Payload::BVal(x)) => x,
            _ => arbitrary(),
        }
    }

    open spec fn same(a: u8, b: u8) -> bool {
        a == b
    }

    fn from_var(n1: &Primary, n3: Payload) -> (field: u8) {
        match n3 {
            Payload::BVal(x) => x,
            _ => unreached(),
        }
    }

    fn readable(n1: &Primary, n3: &Payload) -> (b: bool) {
        match n3 {
            Payload::BVal(_) => true,
            _ => false,
        }
    }

    fn field_ref<'a>(n1: &'a Primary, n3: &'a Payload) -> (field: &'a u8) {
        match n3 {
            Payload::BVal(x) => x,
            _ => unreached(),
        }
    }

    fn into_var(inner: u8, n1: &mut Primary, n3: &mut Payload) {
        *n3 = Payload::BVal(inner);
    }

    proof fn lemma_vtype_fits() {
    }

    proof fn lemma_read_back(inner: u8) {
    }

    proof fn lemma_convertible(value: u8) {
    }

    proof fn lemma_never_refused(value: u8, e: IntoVariantError) {
    }

    proof fn lemma_there_and_back(value: u8, field: u8, back: Result<u8, FromVariantError>) {
    }
}

impl Sealed for i16 {

}

impl VariantAccess for i16 {
    type Field = i16;

    const VTYPE: u32 = VT_I2;

    open spec fn spec_vtype() -> u32 {
        VT_I2
    }

    open spec fn spec_into_var(inner: i16) -> Slot {
        Slot::Secondary(Payload::IVal(inner))
    }

    open spec fn spec_readable(slot: Slot) -> bool {
        slot matches Slot::Secondary(Payload::IVal(_))
    }

    open spec fn spec_from_var(slot: Slot) -> i16 {
        match slot {
            Slot::Secondary(Payload::IVal(x)) => x,
            _ => arbitrary(),
        }
    }

    open spec fn same(a: i16, b: i16) -> bool {
        a == b
    }

    fn from_var(n1: &Primary, n3: Payload) -> (field: i16) {
        match n3 {
            Payload::IVal(x) => x,
            _ => unreached(),
        }
    }

    fn readable(n1: &Primary, n3: &Payload) -> (b: bool) {
        match n3 {
            Payload::IVal(_) => true,
            _ => false,
        }
    }

    fn field_ref<'a>(n1: &'a Primary, n3: &'a Payload) -> (field: &'a i16) {
        match n3 {
            Payload::IVal(x) => x,
            _ => unreached(),
        }
    }

    fn into_var(inner: i16, n1: &mut Primary, n3: &mut Payload) {
        *n3 = Payload::IVal(inner);
    }

    proof fn lemma_vtype_fits() {
    }

    proof fn lemma_read_back(inner: i16) {
    }

    proof fn lemma_convertible(value: i16) {
    }

    proof fn lemma_never_refused(value: i16, e: IntoVariantError) {
    }

    proof fn lemma_there_and_back(value: i16, field: i16, back: Result<i16, FromVariantError>) {
    }
}

impl Sealed for i8 {

}

impl VariantAccess for i8 {
    type Field = i8;

    const VTYPE: u32 = VT_I1;

    open spec fn spec_vtype() -> u32 {
        VT_I1
    }

    open spec fn spec_into_var(inner: i8) -> Slot {
        Slot::Secondary(Payload::CVal(inner))
    }

    open spec fn spec_readable(slot: Slot) -> bool {
        slot matches Slot::Secondary(Payload::CVal(_))
    }

    open spec fn spec_from_var(slot: Slot) -> i8 {
        match slot {
            Slot::Secondary(Payload::CVal(x)) => x,
            _ => arbitrary(),
        }
    }

    open spec fn same(a: i8, b: i8) -> bool {
        a == b
    }

    fn from_var(n1: &Primary, n3: Payload) -> (field: i8) {
        match n3 {
            Payload::CVal(x) => x,
            _ => unreached(),
        }
    }

    fn readable(n1: &Primary, n3: &Payload) -> (b: bool) {
        match n3 {
            Payload::CVal(_) => true,
            _ => false,
        }
    }

    fn field_ref<'a>(n1: &'a Primary, n3: &'a Payload) -> (field: &'a i8) {
        match n3 {
            Payload::CVal(x) => x,
            _ => unreached(),
        }
    }

    fn into_var(inner: i8, n1: &mut Primary, n3: &mut Payload) {
        *n3 = Payload::CVal(inner);
    }

    proof fn lemma_vtype_fits() {
    }

    proof fn lemma_read_back(inner: i8) {
    }

    proof fn lemma_convertible(value: i8) {
    }

    proof fn lemma_never_refused(value: i8, e: IntoVariantError) {
    }

    proof fn lemma_there_and_back(value: i8, field: i8, back: Result<i8, FromVariantError>) {
    }
}

impl Sealed for u16 {

}

impl VariantAccess for u16 {
    type Field = u16;

    const VTYPE: u32 = VT_UI2;

    open spec fn spec_vtype() -> u32 {
        VT_UI2
    }

    open spec fn spec_into_var(inner: u16) -> Slot {
        Slot::Secondary(Payload::UiVal(inner))
    }

    open spec fn spec_readable(slot: Slot) -> bool {
        slot matches Slot::Secondary(Payload::UiVal(_))
    }

    open spec fn spec_from_var(slot: Slot) -> u16 {
        match slot {
            Slot::Secondary(Payload::UiVal(x)) => x,
            _ => arbitrary(),
        }
    }

    open spec fn same(a: u16, b: u16) -> bool {
        a == b
    }

    fn from_var(n1: &Primary, n3: Payload) -> (field: u16) {
        match n3 {
            Payload::UiVal(x) => x,
            _ => unreached(),
        }
    }

    fn readable(n1: &Primary, n3: &Payload) -> (b: bool) {
        match n3 {
            Payload::UiVal(_) => true,
            _ => false,
        }
    }

    fn field_ref<'a>(n1: &'a Primary, n3: &'a Payload) -> (field: &'a u16) {
        match n3 {
            Payload::UiVal(x) => x,
            _ => unreached(),
        }
    }

    fn into_var(inner: u16, n1: &mut Primary, n3: &mut Payload) {
        *n3 = Payload::UiVal(inner);
    }

    proof fn lemma_vtype_fits() {
    }

    proof fn lemma_read_back(inner: u16) {
    }

    proof fn lemma_convertible(value: u16) {
    }

    proof fn lemma_never_refused(value: u16, e: IntoVariantError) {
    }

    proof fn lemma_there_and_back(value: u16, field: u16, back: Result<u16, FromVariantError>) {
    }
}

impl Sealed for u32 {

}

impl VariantAccess for u32 {
    type Field = u32;

    const VTYPE: u32 = VT_UI4;

    open spec fn spec_vtype() -> u32 {
        VT_UI4
    }

    open spec fn spec_into_var(inner: u32) -> Slot {
        Slot::Secondary(Payload::UlVal(inner))
    }

    open spec fn spec_readable(slot: Slot) -> bool {
        slot matches Slot::Secondary(Payload::UlVal(_))
    }

    open spec fn spec_from_var(slot: Slot) -> u32 {
        match slot {
            Slot::Secondary(Payload::UlVal(x)) => x,
            _ => arbitrary(),
        }
    }

    open spec fn same(a: u32, b: u32) -> bool {
        a == b
    }

    fn from_var(n1: &Primary, n3: Payload) -> (field: u32) {
        match n3 {
            Payload::UlVal(x) => x,
            _ => unreached(),
        }
    }

    fn readable(n1: &Primary, n3: &Payload) -> (b: bool) {
        match n3 {
            Payload::UlVal(_) => true,
            _ => false,
        }
    }

    fn field_ref<'a>(n1: &'a Primary, n3: &'a Payload) -> (field: &'a u32) {
        match n3 {
            Payload::UlVal(x) => x,
            _ => unreached(),
        }
    }

    fn into_var(inner: u32, n1: &mut Primary, n3: &mut Payload) {
        *n3 = Payload::UlVal(inner);
    }

    proof fn lemma_vtype_fits() {
    }

    proof fn lemma_read_back(inner: u32) {
    }

    proof fn lemma_convertible(value: u32) {
    }

    proof fn lemma_never_refused(value: u32, e: IntoVariantError) {
    }

    proof fn lemma_there_and_back(value: u32, field: u32, back: Result<u32, FromVariantError>) {
    }
}

impl Sealed for u64 {

}

impl VariantAccess for u64 {
    type Field = u64;

    const VTYPE: u32 = VT_UI8;

    open spec fn spec_vtype() -> u32 {
        VT_UI8
    }

    open spec fn spec_into_var(inner: u64) -> Slot {
        Slot::Secondary(Payload::UllVal(inner))
    }

    open spec fn spec_readable(slot: Slot) -> bool {
        slot matches Slot::Secondary(Payload::UllVal(_))
    }

    open spec fn spec_from_var(slot: Slot) -> u64 {
        match slot {
            Slot::Secondary(Payload::UllVal(x)) => x,
            _ => arbitrary(),
        }
    }

    open spec fn same(a: u64, b: u64) -> bool {
        a == b
    }

    fn from_var(n1: &Primary, n3: Payload) -> (field: u64) {
        match n3 {
            Payload::UllVal(x) => x,
            _ => unreached(),
        }
    }

    fn readable(n1: &Primary, n3: &Payload) -> (b: bool) {
        match n3 {
            Payload::UllVal(_) => true,
            _ => false,
        }
    }

    fn field_ref<'a>(n1: &'a Primary, n3: &'a Payload) -> (field: &'a u64) {
        match n3 {
            Payload::UllVal(x) => x,
            _ => unreached(),
        }
    }

    fn into_var(inner: u64, n1: &mut Primary, n3: &mut Payload) {
        *n3 = Payload::UllVal(inner);
    }

    proof fn lemma_vtype_fits() {
    }

    proof fn lemma_read_back(inner: u64) {
    }

    proof fn lemma_convertible(value: u64) {
    }

    proof fn lemma_never_refused(value: u64, e: IntoVariantError) {
    }

    proof fn lemma_there_and_back(value: u64, field: u64, back: Result<u64, FromVariantError>) {
    }
}

impl Sealed for F32Bits {

}

impl VariantAccess for F32Bits {
    type Field = u32;

    const VTYPE: u32 = VT_R4;

    open spec fn spec_vtype() -> u32 {
        VT_R4
    }

    open spec fn spec_into_var(inner: u32) -> Slot {
        Slot::Secondary(Payload::FltVal(inner))
    }

    open spec fn spec_readable(slot: Slot) -> bool {
        slot matches Slot::Secondary(Payload::FltVal(_))
    }

    open spec fn spec_from_var(slot: Slot) -> u32 {
        match slot {
            Slot::Secondary(Payload::FltVal(x)) => x,
            _ => arbitrary(),
        }
    }

    open spec fn same(a: F32Bits, b: F32Bits) -> bool {
        a == b
    }

    fn from_var(n1: &Primary, n3: Payload) -> (field: u32) {
        match n3 {
            Payload::FltVal(x) => x,
            _ => unreached(),
        }
    }

    fn readable(n1: &Primary, n3: &Payload) -> (b: bool) {
        match n3 {
            Payload::FltVal(_) => true,
            _ => false,
        }
    }

    fn field_ref<'a>(n1: &'a Primary, n3: &'a Payload) -> (field: &'a u32) {
        match n3 {
            Payload::FltVal(x) => x,
            _ => unreached(),
        }
    }

    fn into_var(inner: u32, n1: &mut Primary, n3: &mut Payload) {
        *n3 = Payload::FltVal(inner);
    }

    proof fn lemma_vtype_fits() {
    }

    proof fn lemma_read_back(inner: u32) {
    }

    proof fn lemma_convertible(value: F32Bits) {
    }

    proof fn lemma_never_refused(value: F32Bits, e: IntoVariantError) {
    }

    proof fn lemma_there_and_back(
        value: F32Bits,
        field: u32,
        back: Result<F32Bits, FromVariantError>,
    ) {
    }
}

impl Sealed for F64Bits {

}

impl VariantAccess for F64Bits {
    type Field = u64;

    const VTYPE: u32 = VT_R8;

    open spec fn spec_vtype() -> u32 {
        VT_R8
    }

    open spec fn spec_into_var(inner: u64) -> Slot {
        Slot::Secondary(Payload::DblVal(inner))
    }

    open spec fn spec_readable(slot: Slot) -> bool {
        slot matches Slot::Secondary(Payload::DblVal(_))
    }

    open spec fn spec_from_var(slot: Slot) -> u64 {
        match slot {
            Slot::Secondary(Payload::DblVal(x)) => x,
            _ => arbitrary(),
        }
    }

    open spec fn same(a: F64Bits, b: F64Bits) -> bool {
        a == b
    }

    fn from_var(n1: &Primary, n3: Payload) -> (field: u64) {
        match n3 {
            Payload::DblVal(x) => x,
            _ => unreached(),
        }
    }

    fn readable(n1: &Primary, n3: &Payload) -> (b: bool) {
        match n3 {
            Payload::DblVal(_) => true,
            _ => false,
        }
    }

    fn field_ref<'a>(n1: &'a Primary, n3: &'a Payload) -> (field: &'a u64) {
        match n3 {
            Payload::DblVal(x) => x,
            _ => unreached(),
        }
    }

    fn into_var(inner: u64, n1: &mut Primary, n3: &mut Payload) {
        *n3 = Payload::DblVal(inner);
    }

    proof fn lemma_vtype_fits() {
    }

    proof fn lemma_read_back(inner: u64) {
    }

    proof fn lemma_convertible(value: F64Bits) {
    }

    proof fn lemma_never_refused(value: F64Bits, e: IntoVariantError) {
    }

    proof fn lemma_there_and_back(
        value: F64Bits,
        field: u64,
        back: Result<F64Bits, FromVariantError>,
    ) {
    }
}

impl Sealed for VariantBool {

}

impl VariantAccess for VariantBool {
    type Field = i16;

    const VTYPE: u32 = VT_BOOL;

    open spec fn spec_vtype() -> u32 {
        VT_BOOL
    }

    open spec fn spec_into_var(inner: i16) -> Slot {
        Slot::Secondary(Payload::BoolVal(inner))
    }

    open spec fn spec_readable(slot: Slot) -> bool {
        slot matches Slot::Secondary(Payload::BoolVal(_))
    }

    open spec fn spec_from_var(slot: Slot) -> i16 {
        match slot {
            Slot::Secondary(Payload::BoolVal(x)) => x,
            _ => arbitrary(),
        }
    }

    open spec fn same(a: VariantBool, b: VariantBool) -> bool {
        a == b
    }

    fn from_var(n1: &Primary, n3: Payload) -> (field: i16) {
        match n3 {
            Payload::BoolVal(x) => x,
            _ => unreached(),
        }
    }

    fn readable(n1: &Primary, n3: &Payload) -> (b: bool) {
        match n3 {
            Payload::BoolVal(_) => true,
            _ => false,
        }
    }

    fn field_ref<'a>(n1: &'a Primary, n3: &'a Payload) -> (field: &'a i16) {
        match n3 {
            Payload::BoolVal(x) => x,
            _ => unreached(),
        }
    }

    fn into_var(inner: i16, n1: &mut Primary, n3: &mut Payload) {
        *n3 = Payload::BoolVal(inner);
    }

    proof fn lemma_vtype_fits() {
    }

    proof fn lemma_read_back(inner: i16) {
    }

    proof fn lemma_convertible(value: VariantBool) {
    }

    proof fn lemma_never_refused(value: VariantBool, e: IntoVariantError) {
    }

    proof fn lemma_there_and_back(
        value: VariantBool,
        field: i16,
        back: Result<VariantBool, FromVariantError>,
    ) {
    }
}

impl Sealed for SCode {

}

impl VariantAccess for SCode {
    type Field = i32;

    const VTYPE: u32 = VT_ERROR;

    open spec fn spec_vtype() -> u32 {
        VT_ERROR
    }

    open spec fn spec_into_var(inner: i32) -> Slot {
        Slot::Secondary(Payload::Scode(inner))
    }

    open spec fn spec_readable(slot: Slot) -> bool {
        slot matches Slot::Secondary(Payload::Scode(_))
    }

    open spec fn spec_from_var(slot: Slot) -> i32 {
        match slot {
            Slot::Secondary(Payload::Scode(x)) => x,
            _ => arbitrary(),
        }
    }

    open spec fn same(a: SCode, b: SCode) -> bool {
        a == b
    }

    fn from_var(n1: &Primary, n3: Payload) -> (field: i32) {
        match n3 {
            Payload::Scode(x) => x,
            _ => unreached(),
        }
    }

    fn readable(n1: &Primary, n3: &Payload) -> (b: bool) {
        match n3 {
            Payload::Scode(_) => true,
            _ => false,
        }
    }

    fn field_ref<'a>(n1: &'a Primary, n3: &'a Payload) -> (field: &'a i32) {
        match n3 {
            Payload::Scode(x) => x,
            _ => unreached(),
        }
    }

    fn into_var(inner: i32, n1: &mut Primary, n3: &mut Payload) {
        *n3 = Payload::Scode(inner);
    }

    proof fn lemma_vtype_fits() {
    }

    proof fn lemma_read_back(inner: i32) {
    }

    proof fn lemma_convertible(value: SCode) {
    }

    proof fn lemma_never_refused(value: SCode, e: IntoVariantError) {
    }

    proof fn lemma_there_and_back(
        value: SCode,
        field: i32,
        back: Result<SCode, FromVariantError>,
    ) {
    }
}

impl Sealed for Currency {

}

impl VariantAccess for Currency {
    type Field = Cy;

    const VTYPE: u32 = VT_CY;

    open spec fn spec_vtype() -> u32 {
        VT_CY
    }

    open spec fn spec_into_var(inner: Cy) -> Slot {
        Slot::Secondary(Payload::CyVal(inner))
    }

    open spec fn spec_readable(slot: Slot) -> bool {
        slot matches Slot::Secondary(Payload::CyVal(_))
    }

    open spec fn spec_from_var(slot: Slot) -> Cy {
        match slot {
            Slot::Secondary(Payload::CyVal(x)) => x,
            _ => arbitrary(),
        }
    }

    open spec fn same(a: Currency, b: Currency) -> bool {
        a == b
    }

    fn from_var(n1: &Primary, n3: Payload) -> (field: Cy) {
        match n3 {
            Payload::CyVal(x) => x,
            _ => unreached(),
        }
    }

    fn readable(n1: &Primary, n3: &Payload) -> (b: bool) {
        match n3 {
            Payload::CyVal(_) => true,
            _ => false,
        }
    }

    fn field_ref<'a>(n1: &'a Primary, n3: &'a Payload) -> (field: &'a Cy) {
        match n3 {
            Payload::CyVal(x) => x,
            _ => unreached(),
        }
    }

    fn into_var(inner: Cy, n1: &mut Primary, n3: &mut Payload) {
        *n3 = Payload::CyVal(inner);
    }

    proof fn lemma_vtype_fits() {
    }

    proof fn lemma_read_back(inner: Cy) {
    }

    proof fn lemma_convertible(value: Currency) {
    }

    proof fn lemma_never_refused(value: Currency, e: IntoVariantError) {
    }

    proof fn lemma_there_and_back(
        value: Currency,
        field: Cy,
        back: Result<Currency, FromVariantError>,
    ) {
    }
}

impl Sealed for Date {

}

impl VariantAccess for Date {
    type Field = u64;

    const VTYPE: u32 = VT_DATE;

    open spec fn spec_vtype() -> u32 {
        VT_DATE
    }

    open spec fn spec_into_var(inner: u64) -> Slot {
        Slot::Secondary(Payload::Date(inner))
    }

    open spec fn spec_readable(slot: Slot) -> bool {
        slot matches Slot::Secondary(Payload::Date(_))
    }

    open spec fn spec_from_var(slot: Slot) -> u64 {
        match slot {
            Slot::Secondary(Payload::Date(x)) => x,
            _ => arbitrary(),
        }
    }

    open spec fn same(a: Date, b: Date) -> bool {
        a == b
    }

    fn from_var(n1: &Primary, n3: Payload) -> (field: u64) {
        match n3 {
            Payload::Date(x) => x,
            _ => unreached(),
        }
    }

    fn readable(n1: &Primary, n3: &Payload) -> (b: bool) {
        match n3 {
            Payload::Date(_) => true,
            _ => false,
        }
    }

    fn field_ref<'a>(n1: &'a Primary, n3: &'a Payload) -> (field: &'a u64) {
        match n3 {
            Payload::Date(x) => x,
            _ => unreached(),
        }
    }

    fn into_var(inner: u64, n1: &mut Primary, n3: &mut Payload) {
        *n3 = Payload::Date(inner);
    }

    proof fn lemma_vtype_fits() {
    }

    proof fn lemma_read_back(inner: u64) {
    }

    proof fn lemma_convertible(value: Date) {
    }

    proof fn lemma_never_refused(value: Date, e: IntoVariantError) {
    }

    proof fn lemma_there_and_back(value: Date, field: u64, back: Result<Date, FromVariantError>) {
    }
}

impl Sealed for Int {

}

impl VariantAccess for Int {
    type Field = i32;

    const VTYPE: u32 = VT_INT;

    open spec fn spec_vtype() -> u32 {
        VT_INT
    }

    open spec fn spec_into_var(inner: i32) -> Slot {
        Slot::Secondary(Payload::IntVal(inner))
    }

    open spec fn spec_readable(slot: Slot) -> bool {
        slot matches Slot::Secondary(Payload::IntVal(_))
    }

    open spec fn spec_from_var(slot: Slot) -> i32 {
        match slot {
            Slot::Secondary(Payload::IntVal(x)) => x,
            _ => arbitrary(),
        }
    }

    open spec fn same(a: Int, b: Int) -> bool {
        a == b
    }

    fn from_var(n1: &Primary, n3: Payload) -> (field: i32) {
        match n3 {
            Payload::IntVal(x) => x,
            _ => unreached(),
        }
    }

    fn readable(n1: &Primary, n3: &Payload) -> (b: bool) {
        match n3 {
            Payload::IntVal(_) => true,
            _ => false,
        }
    }

    fn field_ref<'a>(n1: &'a Primary, n3: &'a Payload) -> (field: &'a i32) {
        match n3 {
            Payload::IntVal(x) => x,
            _ => unreached(),
        }
    }

    fn into_var(inner: i32, n1: &mut Primary, n3: &mut Payload) {
        *n3 = Payload::IntVal(inner);
    }

    proof fn lemma_vtype_fits() {
    }

    proof fn lemma_read_back(inner: i32) {
    }

    proof fn lemma_convertible(value: Int) {
    }

    proof fn lemma_never_refused(value: Int, e: IntoVariantError) {
    }

    proof fn lemma_there_and_back(value: Int, field: i32, back: Result<Int, FromVariantError>) {
    }
}

impl Sealed for UInt {

}

impl VariantAccess for UInt {
    type Field = u32;

    const VTYPE: u32 = VT_UINT;

    open spec fn spec_vtype() -> u32 {
        VT_UINT
    }

    open spec fn spec_into_var(inner: u32) -> Slot {
        Slot::Secondary(Payload::UintVal(inner))
    }

    open spec fn spec_readable(slot: Slot) -> bool {
        slot matches Slot::Secondary(Payload::UintVal(_))
    }

    open spec fn spec_from_var(slot: Slot) -> u32 {
        match slot {
            Slot::Secondary(Payload::UintVal(x)) => x,
            _ => arbitrary(),
        }
    }

    open spec fn same(a: UInt, b: UInt) -> bool {
        a == b
    }

    fn from_var(n1: &Primary, n3: Payload) -> (field: u32) {
        match n3 {
            Payload::UintVal(x) => x,
            _ => unreached(),
        }
    }

    fn readable(n1: &Primary, n3: &Payload) -> (b: bool) {
        match n3 {
            Payload::UintVal(_) => true,
            _ => false,
        }
    }

    fn field_ref<'a>(n1: &'a Primary, n3: &'a Payload) -> (field: &'a u32) {
        match n3 {
            Payload::UintVal(x) => x,
            _ => unreached(),
        }
    }

    fn into_var(inner: u32, n1: &mut Primary, n3: &mut Payload) {
        *n3 = Payload::UintVal(inner);
    }

    proof fn lemma_vtype_fits() {
    }

    proof fn lemma_read_back(inner: u32) {
    }

    proof fn lemma_convertible(value: UInt) {
    }

    proof fn lemma_never_refused(value: UInt, e: IntoVariantError) {
    }

    proof fn lemma_there_and_back(value: UInt, field: u32, back: Result<UInt, FromVariantError>) {
    }
}

impl Sealed for Box<u8> {

}

impl VariantAccess for Box<u8> {
    type Field = Option<Box<u8>>;

    const VTYPE: u32 = VT_PUI1;

    open spec fn spec_vtype() -> u32 {
        VT_PUI1
    }

    open spec fn spec_into_var(inner: Option<Box<u8>>) -> Slot {
        Slot::Secondary(Payload::PbVal(inner))
    }

    open spec fn spec_readable(slot: Slot) -> bool {
        slot matches Slot::Secondary(Payload::PbVal(_))
    }

    open spec fn spec_from_var(slot: Slot) -> Option<Box<u8>> {
        match slot {
            Slot::Secondary(Payload::PbVal(x)) => x,
            _ => arbitrary(),
        }
    }

    open spec fn same(a: Box<u8>, b: Box<u8>) -> bool {
        a == b
    }

    fn from_var(n1: &Primary, n3: Payload) -> (field: Option<Box<u8>>) {
        match n3 {
            Payload::PbVal(x) => x,
            _ => unreached(),
        }
    }

    fn readable(n1: &Primary, n3: &Payload) -> (b: bool) {
        match n3 {
            Payload::PbVal(_) => true,
            _ => false,
        }
    }

    fn field_ref<'a>(n1: &'a Primary, n3: &'a Payload) -> (field: &'a Option<Box<u8>>) {
        match n3 {
            Payload::PbVal(x) => x,
            _ => unreached(),
        }
    }

    fn into_var(inner: Option<Box<u8>>, n1: &mut Primary, n3: &mut Payload) {
        *n3 = Payload::PbVal(inner);
    }

    proof fn lemma_vtype_fits() {
    }

    proof fn lemma_read_back(inner: Option<Box<u8>>) {
    }

    proof fn lemma_convertible(value: Box<u8>) {
    }

    proof fn lemma_never_refused(value: Box<u8>, e: IntoVariantError) {
    }

    proof fn lemma_there_and_back(
        value: Box<u8>,
        field: Option<Box<u8>>,
        back: Result<Box<u8>, FromVariantError>,
    ) {
    }
}

impl Sealed for Box<i16> {

}

impl VariantAccess for Box<i16> {
    type Field = Option<Box<i16>>;

    const VTYPE: u32 = VT_PI2;

    open spec fn spec_vtype() -> u32 {
        VT_PI2
    }

    open spec fn spec_into_var(inner: Option<Box<i16>>) -> Slot {
        Slot::Secondary(Payload::PiVal(inner))
    }

    open spec fn spec_readable(slot: Slot) -> bool {
        slot matches Slot::Secondary(Payload::PiVal(_))
    }

    open spec fn spec_from_var(slot: Slot) -> Option<Box<i16>> {
        match slot {
            Slot::Secondary(Payload::PiVal(x)) => x,
            _ => arbitrary(),
        }
    }

    open spec fn same(a: Box<i16>, b: Box<i16>) -> bool {
        a == b
    }

    fn from_var(n1: &Primary, n3: Payload) -> (field: Option<Box<i16>>) {
        match n3 {
            Payload::PiVal(x) => x,
            _ => unreached(),
        }
    }

    fn readable(n1: &Primary, n3: &Payload) -> (b: bool) {
        match n3 {
            Payload::PiVal(_) => true,
            _ => false,
        }
    }

    fn field_ref<'a>(n1: &'a Primary, n3: &'a Payload) -> (field: &'a Option<Box<i16>>) {
        match n3 {
            Payload::PiVal(x) => x,
            _ => unreached(),
        }
    }

    fn into_var(inner: Option<Box<i16>>, n1: &mut Primary, n3: &mut Payload) {
        *n3 = Payload::PiVal(inner);
    }

    proof fn lemma_vtype_fits() {
    }

    proof fn lemma_read_back(inner: Option<Box<i16>>) {
    }

    proof fn lemma_convertible(value: Box<i16>) {
    }

    proof fn lemma_never_refused(value: Box<i16>, e: IntoVariantError) {
    }

    proof fn lemma_there_and_back(
        value: Box<i16>,
        field: Option<Box<i16>>,
        back: Result<Box<i16>, FromVariantError>,
    ) {
    }
}

impl Sealed for Box<i32> {

}

impl VariantAccess for Box<i32> {
    type Field = Option<Box<i32>>;

    const VTYPE: u32 = VT_PI4;

    open spec fn spec_vtype() -> u32 {
        VT_PI4
    }

    open spec fn spec_into_var(inner: Option<Box<i32>>) -> Slot {
        Slot::Secondary(Payload::PlVal(inner))
    }

    open spec fn spec_readable(slot: Slot) -> bool {
        slot matches Slot::Secondary(Payload::PlVal(_))
    }

    open spec fn spec_from_var(slot: Slot) -> Option<Box<i32>> {
        match slot {
            Slot::Secondary(Payload::PlVal(x)) => x,
            _ => arbitrary(),
        }
    }

    open spec fn same(a: Box<i32>, b: Box<i32>) -> bool {
        a == b
    }

    fn from_var(n1: &Primary, n3: Payload) -> (field: Option<Box<i32>>) {
        match n3 {
            Payload::PlVal(x) => x,
            _ => unreached(),
        }
    }

    fn readable(n1: &Primary, n3: &Payload) -> (b: bool) {
        match n3 {
            Payload::PlVal(_) => true,
            _ => false,
        }
    }

    fn field_ref<'a>(n1: &'a Primary, n3: &'a Payload) -> (field: &'a Option<Box<i32>>) {
        match n3 {
            Payload::PlVal(x) => x,
            _ => unreached(),
        }
    }

    fn into_var(inner: Option<Box<i32>>, n1: &mut Primary, n3: &mut Payload) {
        *n3 = Payload::PlVal(inner);
    }

    proof fn lemma_vtype_fits() {
    }

    proof fn lemma_read_back(inner: Option<Box<i32>>) {
    }

    proof fn lemma_convertible(value: Box<i32>) {
    }

    proof fn lemma_never_refused(value: Box<i32>, e: IntoVariantError) {
    }

    proof fn lemma_there_and_back(
        value: Box<i32>,
        field: Option<Box<i32>>,
        back: Result<Box<i32>, FromVariantError>,
    ) {
    }
}

impl Sealed for Box<i64> {

}

impl VariantAccess for Box<i64> {
    type Field = Option<Box<i64>>;

    const VTYPE: u32 = VT_PI8;

    open spec fn spec_vtype() -> u32 {
        VT_PI8
    }

    open spec fn spec_into_var(inner: Option<Box<i64>>) -> Slot {
        Slot::Secondary(Payload::PllVal(inner))
    }

    open spec fn spec_readable(slot: Slot) -> bool {
        slot matches Slot::Secondary(Payload::PllVal(_))
    }

    open spec fn spec_from_var(slot: Slot) -> Option<Box<i64>> {
        match slot {
            Slot::Secondary(Payload::PllVal(x)) => x,
            _ => arbitrary(),
        }
    }

    open spec fn same(a: Box<i64>, b: Box<i64>) -> bool {
        a == b
    }

    fn from_var(n1: &Primary, n3: Payload) -> (field: Option<Box<i64>>) {
        match n3 {
            Payload::PllVal(x) => x,
            _ => unreached(),
        }
    }

    fn readable(n1: &Primary, n3: &Payload) -> (b: bool) {
        match n3 {
            Payload::PllVal(_) => true,
            _ => false,
        }
    }

    fn field_ref<'a>(n1: &'a Primary, n3: &'a Payload) -> (field: &'a Option<Box<i64>>) {
        match n3 {
            Payload::PllVal(x) => x,
            _ => unreached(),
        }
    }

    fn into_var(inner: Option<Box<i64>>, n1: &mut Primary, n3: &mut Payload) {
        *n3 = Payload::PllVal(inner);
    }

    proof fn lemma_vtype_fits() {
    }

    proof fn lemma_read_back(inner: Option<Box<i64>>) {
    }

    proof fn lemma_convertible(value: Box<i64>) {
    }

    proof fn lemma_never_refused(value: Box<i64>, e: IntoVariantError) {
    }

    proof fn lemma_there_and_back(
        value: Box<i64>,
        field: Option<Box<i64>>,
        back: Result<Box<i64>, FromVariantError>,
    ) {
    }
}

impl Sealed for Box<i8> {

}

impl VariantAccess for Box<i8> {
    type Field = Option<Box<i8>>;

    const VTYPE: u32 = VT_PI1;

    open spec fn spec_vtype() -> u32 {
        VT_PI1
    }

    open spec fn spec_into_var(inner: Option<Box<i8>>) -> Slot {
        Slot::Secondary(Payload::PcVal(inner))
    }

    open spec fn spec_readable(slot: Slot) -> bool {
        slot matches Slot::Secondary(Payload::PcVal(_))
    }

    open spec fn spec_from_var(slot: Slot) -> Option<Box<i8>> {
        match slot {
            Slot::Secondary(Payload::PcVal(x)) => x,
            _ => arbitrary(),
        }
    }

    open spec fn same(a: Box<i8>, b: Box<i8>) -> bool {
        a == b
    }

    fn from_var(n1: &Primary, n3: Payload) -> (field: Option<Box<i8>>) {
        match n3 {
            Payload::PcVal(x) => x,
            _ => unreached(),
        }
    }

    fn readable(n1: &Primary, n3: &Payload) -> (b: bool) {
        match n3 {
            Payload::PcVal(_) => true,
            _ => false,
        }
    }

    fn field_ref<'a>(n1: &'a Primary, n3: &'a Payload) -> (field: &'a Option<Box<i8>>) {
        match n3 {
            Payload::PcVal(x) => x,
            _ => unreached(),
        }
    }

    fn into_var(inner: Option<Box<i8>>, n1: &mut Primary, n3: &mut Payload) {
        *n3 = Payload::PcVal(inner);
    }

    proof fn lemma_vtype_fits() {
    }

    proof fn lemma_read_back(inner: Option<Box<i8>>) {
    }

    proof fn lemma_convertible(value: Box<i8>) {
    }

    proof fn lemma_never_refused(value: Box<i8>, e: IntoVariantError) {
    }

    proof fn lemma_there_and_back(
        value: Box<i8>,
        field: Option<Box<i8>>,
        back: Result<Box<i8>, FromVariantError>,
    ) {
    }
}

impl Sealed for Box<u16> {

}

impl VariantAccess for Box<u16> {
    type Field = Option<Box<u16>>;

    const VTYPE: u32 = VT_PUI2;

    open spec fn spec_vtype() -> u32 {
        VT_PUI2
    }

    open spec fn spec_into_var(inner: Option<Box<u16>>) -> Slot {
        Slot::Secondary(Payload::PuiVal(inner))
    }

    open spec fn spec_readable(slot: Slot) -> bool {
        slot matches Slot::Secondary(Payload::PuiVal(_))
    }

    open spec fn spec_from_var(slot: Slot) -> Option<Box<u16>> {
        match slot {
            Slot::Secondary(Payload::PuiVal(x)) => x,
            _ => arbitrary(),
        }
    }

    open spec fn same(a: Box<u16>, b: Box<u16>) -> bool {
        a == b
    }

    fn from_var(n1: &Primary, n3: Payload) -> (field: Option<Box<u16>>) {
        match n3 {
            Payload::PuiVal(x) => x,
            _ => unreached(),
        }
    }

    fn readable(n1: &Primary, n3: &Payload) -> (b: bool) {
        match n3 {
            Payload::PuiVal(_) => true,
            _ => false,
        }
    }

    fn field_ref<'a>(n1: &'a Primary, n3: &'a Payload) -> (field: &'a Option<Box<u16>>) {
        match n3 {
            Payload::PuiVal(x) => x,
            _ => unreached(),
        }
    }

    fn into_var(inner: Option<Box<u16>>, n1: &mut Primary, n3: &mut Payload) {
        *n3 = Payload::PuiVal(inner);
    }

    proof fn lemma_vtype_fits() {
    }

    proof fn lemma_read_back(inner: Option<Box<u16>>) {
    }

    proof fn lemma_convertible(value: Box<u16>) {
    }

    proof fn lemma_never_refused(value: Box<u16>, e: IntoVariantError) {
    }

    proof fn lemma_there_and_back(
        value: Box<u16>,
        field: Option<Box<u16>>,
        back: Result<Box<u16>, FromVariantError>,
    ) {
    }
}

impl Sealed for Box<u32> {

}

impl VariantAccess for Box<u32> {
    type Field = Option<Box<u32>>;

    const VTYPE: u32 = VT_PUI4;

    open spec fn spec_vtype() -> u32 {
        VT_PUI4
    }

    open spec fn spec_into_var(inner: Option<Box<u32>>) -> Slot {
        Slot::Secondary(Payload::PulVal(inner))
    }

    open spec fn spec_readable(slot: Slot) -> bool {
        slot matches Slot::Secondary(Payload::PulVal(_))
    }

    open spec fn spec_from_var(slot: Slot) -> Option<Box<u32>> {
        match slot {
            Slot::Secondary(Payload::PulVal(x)) => x,
            _ => arbitrary(),
        }
    }

    open spec fn same(a: Box<u32>, b: Box<u32>) -> bool {
        a == b
    }

    fn from_var(n1: &Primary, n3: Payload) -> (field: Option<Box<u32>>) {
        match n3 {
            Payload::PulVal(x) => x,
            _ => unreached(),
        }
    }

    fn readable(n1: &Primary, n3: &Payload) -> (b: bool) {
        match n3 {
            Payload::PulVal(_) => true,
            _ => false,
        }
    }

    fn field_ref<'a>(n1: &'a Primary, n3: &'a Payload) -> (field: &'a Option<Box<u32>>) {
        match n3 {
            Payload::PulVal(x) => x,
            _ => unreached(),
        }
    }

    fn into_var(inner: Option<Box<u32>>, n1: &mut Primary, n3: &mut Payload) {
        *n3 = Payload::PulVal(inner);
    }

    proof fn lemma_vtype_fits() {
    }

    proof fn lemma_read_back(inner: Option<Box<u32>>) {
    }

    proof fn lemma_convertible(value: Box<u32>) {
    }

    proof fn lemma_never_refused(value: Box<u32>, e: IntoVariantError) {
    }

    proof fn lemma_there_and_back(
        value: Box<u32>,
        field: Option<Box<u32>>,
        back: Result<Box<u32>, FromVariantError>,
    ) {
    }
}

impl Sealed for Box<u64> {

}

impl VariantAccess for Box<u64> {
    type Field = Option<Box<u64>>;

    const VTYPE: u32 = VT_PUI8;

    open spec fn spec_vtype() -> u32 {
        VT_PUI8
    }

    open spec fn spec_into_var(inner: Option<Box<u64>>) -> Slot {
        Slot::Secondary(Payload::PullVal(inner))
    }

    open spec fn spec_readable(slot: Slot) -> bool {
        slot matches Slot::Secondary(Payload::PullVal(_))
    }

    open spec fn spec_from_var(slot: Slot) -> Option<Box<u64>> {
        match slot {
            Slot::Secondary(Payload::PullVal(x)) => x,
            _ => arbitrary(),
        }
    }

    open spec fn same(a: Box<u64>, b: Box<u64>) -> bool {
        a == b
    }

    fn from_var(n1: &Primary, n3: Payload) -> (field: Option<Box<u64>>) {
        match n3 {
            Payload::PullVal(x) => x,
            _ => unreached(),
        }
    }

    fn readable(n1: &Primary, n3: &Payload) -> (b: bool) {
        match n3 {
            Payload::PullVal(_) => true,
            _ => false,
        }
    }

    fn field_ref<'a>(n1: &'a Primary, n3: &'a Payload) -> (field: &'a Option<Box<u64>>) {
        match n3 {
            Payload::PullVal(x) => x,
            _ => unreached(),
        }
    }

    fn into_var(inner: Option<Box<u64>>, n1: &mut Primary, n3: &mut Payload) {
        *n3 = Payload::PullVal(inner);
    }

    proof fn lemma_vtype_fits() {
    }

    proof fn lemma_read_back(inner: Option<Box<u64>>) {
    }

    proof fn lemma_convertible(value: Box<u64>) {
    }

    proof fn lemma_never_refused(value: Box<u64>, e: IntoVariantError) {
    }

    proof fn lemma_there_and_back(
        value: Box<u64>,
        field: Option<Box<u64>>,
        back: Result<Box<u64>, FromVariantError>,
    ) {
    }
}

impl Sealed for Box<F32Bits> {

}

impl VariantAccess for Box<F32Bits> {
    type Field = Option<Box<u32>>;

    const VTYPE: u32 = VT_PR4;

    open spec fn spec_vtype() -> u32 {
        VT_PR4
    }

    open spec fn spec_into_var(inner: Option<Box<u32>>) -> Slot {
        Slot::Secondary(Payload::PfltVal(inner))
    }

    open spec fn spec_readable(slot: Slot) -> bool {
        slot matches Slot::Secondary(Payload::PfltVal(_))
    }

    open spec fn spec_from_var(slot: Slot) -> Option<Box<u32>> {
        match slot {
            Slot::Secondary(Payload::PfltVal(x)) => x,
            _ => arbitrary(),
        }
    }

    open spec fn same(a: Box<F32Bits>, b: Box<F32Bits>) -> bool {
        a == b
    }

    fn from_var(n1: &Primary, n3: Payload) -> (field: Option<Box<u32>>) {
        match n3 {
            Payload::PfltVal(x) => x,
            _ => unreached(),
        }
    }

    fn readable(n1: &Primary, n3: &Payload) -> (b: bool) {
        match n3 {
            Payload::PfltVal(_) => true,
            _ => false,
        }
    }

    fn field_ref<'a>(n1: &'a Primary, n3: &'a Payload) -> (field: &'a Option<Box<u32>>) {
        match n3 {
            Payload::PfltVal(x) => x,
            _ => unreached(),
        }
    }

    fn into_var(inner: Option<Box<u32>>, n1: &mut Primary, n3: &mut Payload) {
        *n3 = Payload::PfltVal(inner);
    }

    proof fn lemma_vtype_fits() {
    }

    proof fn lemma_read_back(inner: Option<Box<u32>>) {
    }

    proof fn lemma_convertible(value: Box<F32Bits>) {
    }

    proof fn lemma_never_refused(value: Box<F32Bits>, e: IntoVariantError) {
    }

    proof fn lemma_there_and_back(
        value: Box<F32Bits>,
        field: Option<Box<u32>>,
        back: Result<Box<F32Bits>, FromVariantError>,
    ) {
    }
}

impl Sealed for Box<F64Bits> {

}

impl VariantAccess for Box<F64Bits> {
    type Field = Option<Box<u64>>;

    const VTYPE: u32 = VT_PR8;

    open spec fn spec_vtype() -> u32 {
        VT_PR8
    }

    open spec fn spec_into_var(inner: Option<Box<u64>>) -> Slot {
        Slot::Secondary(Payload::PdblVal(inner))
    }

    open spec fn spec_readable(slot: Slot) -> bool {
        slot matches Slot::Secondary(Payload::PdblVal(_))
    }

    open spec fn spec_from_var(slot: Slot) -> Option<Box<u64>> {
        match slot {
            Slot::Secondary(Payload::PdblVal(x)) => x,
            _ => arbitrary(),
        }
    }

    open spec fn same(a: Box<F64Bits>, b: Box<F64Bits>) -> bool {
        a == b
    }

    fn from_var(n1: &Primary, n3: Payload) -> (field: Option<Box<u64>>) {
        match n3 {
            Payload::PdblVal(x) => x,
            _ => unreached(),
        }
    }

    fn readable(n1: &Primary, n3: &Payload) -> (b: bool) {
        match n3 {
            Payload::PdblVal(_) => true,
            _ => false,
        }
    }

    fn field_ref<'a>(n1: &'a Primary, n3: &'a Payload) -> (field: &'a Option<Box<u64>>) {
        match n3 {
            Payload::PdblVal(x) => x,
            _ => unreached(),
        }
    }

    fn into_var(inner: Option<Box<u64>>, n1: &mut Primary, n3: &mut Payload) {
        *n3 = Payload::PdblVal(inner);
    }

    proof fn lemma_vtype_fits() {
    }

    proof fn lemma_read_back(inner: Option<Box<u64>>) {
    }

    proof fn lemma_convertible(value: Box<F64Bits>) {
    }

    proof fn lemma_never_refused(value: Box<F64Bits>, e: IntoVariantError) {
    }

    proof fn lemma_there_and_back(
        value: Box<F64Bits>,
        field: Option<Box<u64>>,
        back: Result<Box<F64Bits>, FromVariantError>,
    ) {
    }
}

impl Sealed for Box<VariantBool> {

}

impl VariantAccess for Box<VariantBool> {
    type Field = Option<Box<i16>>;

    const VTYPE: u32 = VT_PBOOL;

    open spec fn spec_vtype() -> u32 {
        VT_PBOOL
    }

    open spec fn spec_into_var(inner: Option<Box<i16>>) -> Slot {
        Slot::Secondary(Payload::PboolVal(inner))
    }

    open spec fn spec_readable(slot: Slot) -> bool {
        slot matches Slot::Secondary(Payload::PboolVal(_))
    }

    open spec fn spec_from_var(slot: Slot) -> Option<Box<i16>> {
        match slot {
            Slot::Secondary(Payload::PboolVal(x)) => x,
            _ => arbitrary(),
        }
    }

    open spec fn same(a: Box<VariantBool>, b: Box<VariantBool>) -> bool {
        a == b
    }

    fn from_var(n1: &Primary, n3: Payload) -> (field: Option<Box<i16>>) {
        match n3 {
            Payload::PboolVal(x) => x,
            _ => unreached(),
        }
    }

    fn readable(n1: &Primary, n3: &Payload) -> (b: bool) {
        match n3 {
            Payload::PboolVal(_) => true,
            _ => false,
        }
    }

    fn field_ref<'a>(n1: &'a Primary, n3: &'a Payload) -> (field: &'a Option<Box<i16>>) {
        match n3 {
            Payload::PboolVal(x) => x,
            _ => unreached(),
        }
    }

    fn into_var(inner: Option<Box<i16>>, n1: &mut Primary, n3: &mut Payload) {
        *n3 = Payload::PboolVal(inner);
    }

    proof fn lemma_vtype_fits() {
    }

    proof fn lemma_read_back(inner: Option<Box<i16>>) {
    }

    proof fn lemma_convertible(value: Box<VariantBool>) {
    }

    proof fn lemma_never_refused(value: Box<VariantBool>, e: IntoVariantError) {
    }

    proof fn lemma_there_and_back(
        value: Box<VariantBool>,
        field: Option<Box<i16>>,
        back: Result<Box<VariantBool>, FromVariantError>,
    ) {
    }
}

impl Sealed for Box<SCode> {

}

impl VariantAccess for Box<SCode> {
    type Field = Option<Box<i32>>;

    const VTYPE: u32 = VT_PERROR;

    open spec fn spec_vtype() -> u32 {
        VT_PERROR
    }

    open spec fn spec_into_var(inner: Option<Box<i32>>) -> Slot {
        Slot::Secondary(Payload::Pscode(inner))
    }

    open spec fn spec_readable(slot: Slot) -> bool {
        slot matches Slot::Secondary(Payload::Pscode(_))
    }

    open spec fn spec_from_var(slot: Slot) -> Option<Box<i32>> {
        match slot {
            Slot::Secondary(Payload::Pscode(x)) => x,
            _ => arbitrary(),
        }
    }

    open spec fn same(a: Box<SCode>, b: Box<SCode>) -> bool {
        a == b
    }

    fn from_var(n1: &Primary, n3: Payload) -> (field: Option<Box<i32>>) {
        match n3 {
            Payload::Pscode(x) => x,
            _ => unreached(),
        }
    }

    fn readable(n1: &Primary, n3: &Payload) -> (b: bool) {
        match n3 {
            Payload::Pscode(_) => true,
            _ => false,
        }
    }

    fn field_ref<'a>(n1: &'a Primary, n3: &'a Payload) -> (field: &'a Option<Box<i32>>) {
        match n3 {
            Payload::Pscode(x) => x,
            _ => unreached(),
        }
    }

    fn into_var(inner: Option<Box<i32>>, n1: &mut Primary, n3: &mut Payload) {
        *n3 = Payload::Pscode(inner);
    }

    proof fn lemma_vtype_fits() {
    }

    proof fn lemma_read_back(inner: Option<Box<i32>>) {
    }

    proof fn lemma_convertible(value: Box<SCode>) {
    }

    proof fn lemma_never_refused(value: Box<SCode>, e: IntoVariantError) {
    }

    proof fn lemma_there_and_back(
        value: Box<SCode>,
        field: Option<Box<i32>>,
        back: Result<Box<SCode>, FromVariantError>,
    ) {
    }
}

impl Sealed for Box<Currency> {

}

impl VariantAccess for Box<Currency> {
    type Field = Option<Box<Cy>>;

    const VTYPE: u32 = VT_PCY;

    open spec fn spec_vtype() -> u32 {
        VT_PCY
    }

    open spec fn spec_into_var(inner: Option<Box<Cy>>) -> Slot {
        Slot::Secondary(Payload::PcyVal(inner))
    }

    open spec fn spec_readable(slot: Slot) -> bool {
        slot matches Slot::Secondary(Payload::PcyVal(_))
    }

    open spec fn spec_from_var(slot: Slot) -> Option<Box<Cy>> {
        match slot {
            Slot::Secondary(Payload::PcyVal(x)) => x,
            _ => arbitrary(),
        }
    }

    open spec fn same(a: Box<Currency>, b: Box<Currency>) -> bool {
        a == b
    }

    fn from_var(n1: &Primary, n3: Payload) -> (field: Option<Box<Cy>>) {
        match n3 {
            Payload::PcyVal(x) => x,
            _ => unreached(),
        }
    }

    fn readable(n1: &Primary, n3: &Payload) -> (b: bool) {
        match n3 {
            Payload::PcyVal(_) => true,
            _ => false,
        }
    }

    fn field_ref<'a>(n1: &'a Primary, n3: &'a Payload) -> (field: &'a Option<Box<Cy>>) {
        match n3 {
            Payload::PcyVal(x) => x,
            _ => unreached(),
        }
    }

    fn into_var(inner: Option<Box<Cy>>, n1: &mut Primary, n3: &mut Payload) {
        *n3 = Payload::PcyVal(inner);
    }

    proof fn lemma_vtype_fits() {
    }

    proof fn lemma_read_back(inner: Option<Box<Cy>>) {
    }

    proof fn lemma_convertible(value: Box<Currency>) {
    }

    proof fn lemma_never_refused(value: Box<Currency>, e: IntoVariantError) {
    }

    proof fn lemma_there_and_back(
        value: Box<Currency>,
        field: Option<Box<Cy>>,
        back: Result<Box<Currency>, FromVariantError>,
    ) {
    }
}

impl Sealed for Box<Date> {

}

impl VariantAccess for Box<Date> {
    type Field = Option<Box<u64>>;

    const VTYPE: u32 = VT_PDATE;

    open spec fn spec_vtype() -> u32 {
        VT_PDATE
    }

    open spec fn spec_into_var(inner: Option<Box<u64>>) -> Slot {
        Slot::Secondary(Payload::Pdate(inner))
    }

    open spec fn spec_readable(slot: Slot) -> bool {
        slot matches Slot::Secondary(Payload::Pdate(_))
    }

    open spec fn spec_from_var(slot: Slot) -> Option<Box<u64>> {
        match slot {
            Slot::Secondary(Payload::Pdate(x)) => x,
            _ => arbitrary(),
        }
    }

    open spec fn same(a: Box<Date>, b: Box<Date>) -> bool {
        a == b
    }

    fn from_var(n1: &Primary, n3: Payload) -> (field: Option<Box<u64>>) {
        match n3 {
            Payload::Pdate(x) => x,
            _ => unreached(),
        }
    }

    fn readable(n1: &Primary, n3: &Payload) -> (b: bool) {
        match n3 {
            Payload::Pdate(_) => true,
            _ => false,
        }
    }

    fn field_ref<'a>(n1: &'a Primary, n3: &'a Payload) -> (field: &'a Option<Box<u64>>) {
        match n3 {
            Payload::Pdate(x) => x,
            _ => unreached(),
        }
    }

    fn into_var(inner: Option<Box<u64>>, n1: &mut Primary, n3: &mut Payload) {
        *n3 = Payload::Pdate(inner);
    }

    proof fn lemma_vtype_fits() {
    }

    proof fn lemma_read_back(inner: Option<Box<u64>>) {
    }

    proof fn lemma_convertible(value: Box<Date>) {
    }

    proof fn lemma_never_refused(value: Box<Date>, e: IntoVariantError) {
    }

    proof fn lemma_there_and_back(
        value: Box<Date>,
        field: Option<Box<u64>>,
        back: Result<Box<Date>, FromVariantError>,
    ) {
    }
}

impl Sealed for Box<Int> {

}

impl VariantAccess for Box<Int> {
    type Field = Option<Box<i32>>;

    const VTYPE: u32 = VT_PINT;

    open spec fn spec_vtype() -> u32 {
        VT_PINT
    }

    open spec fn spec_into_var(inner: Option<Box<i32>>) -> Slot {
        Slot::Secondary(Payload::PintVal(inner))
    }

    open spec fn spec_readable(slot: Slot) -> bool {
        slot matches Slot::Secondary(Payload::PintVal(_))
    }

    open spec fn spec_from_var(slot: Slot) -> Option<Box<i32>> {
        match slot {
            Slot::Secondary(Payload::PintVal(x)) => x,
            _ => arbitrary(),
        }
    }

    open spec fn same(a: Box<Int>, b: Box<Int>) -> bool {
        a == b
    }

    fn from_var(n1: &Primary, n3: Payload) -> (field: Option<Box<i32>>) {
        match n3 {
            Payload::PintVal(x) => x,
            _ => unreached(),
        }
    }

    fn readable(n1: &Primary, n3: &Payload) -> (b: bool) {
        match n3 {
            Payload::PintVal(_) => true,
            _ => false,
        }
    }

    fn field_ref<'a>(n1: &'a Primary, n3: &'a Payload) -> (field: &'a Option<Box<i32>>) {
        match n3 {
            Payload::PintVal(x) => x,
            _ => unreached(),
        }
    }

    fn into_var(inner: Option<Box<i32>>, n1: &mut Primary, n3: &mut Payload) {
        *n3 = Payload::PintVal(inner);
    }

    proof fn lemma_vtype_fits() {
    }

    proof fn lemma_read_back(inner: Option<Box<i32>>) {
    }

    proof fn lemma_convertible(value: Box<Int>) {
    }

    proof fn lemma_never_refused(value: Box<Int>, e: IntoVariantError) {
    }

    proof fn lemma_there_and_back(
        value: Box<Int>,
        field: Option<Box<i32>>,
        back: Result<Box<Int>, FromVariantError>,
    ) {
    }
}

impl Sealed for Box<UInt> {

}

impl VariantAccess for Box<UInt> {
    type Field = Option<Box<u32>>;

    const VTYPE: u32 = VT_PUINT;

    open spec fn spec_vtype() -> u32 {
        VT_PUINT
    }

    open spec fn spec_into_var(inner: Option<Box<u32>>) -> Slot {
        Slot::Secondary(Payload::PuintVal(inner))
    }

    open spec fn spec_readable(slot: Slot) -> bool {
        slot matches Slot::Secondary(Payload::PuintVal(_))
    }

    open spec fn spec_from_var(slot: Slot) -> Option<Box<u32>> {
        match slot {
            Slot::Secondary(Payload::PuintVal(x)) => x,
            _ => arbitrary(),
        }
    }

    open spec fn same(a: Box<UInt>, b: Box<UInt>) -> bool {
        a == b
    }

    fn from_var(n1: &Primary, n3: Payload) -> (field: Option<Box<u32>>) {
        match n3 {
            Payload::PuintVal(x) => x,
            _ => unreached(),
        }
    }

    fn readable(n1: &Primary, n3: &Payload) -> (b: bool) {
        match n3 {
            Payload::PuintVal(_) => true,
            _ => false,
        }
    }

    fn field_ref<'a>(n1: &'a Primary, n3: &'a Payload) -> (field: &'a Option<Box<u32>>) {
        match n3 {
            Payload::PuintVal(x) => x,
            _ => unreached(),
        }
    }

    fn into_var(inner: Option<Box<u32>>, n1: &mut Primary, n3: &mut Payload) {
        *n3 = Payload::PuintVal(inner);
    }

    proof fn lemma_vtype_fits() {
    }

    proof fn lemma_read_back(inner: Option<Box<u32>>) {
    }

    proof fn lemma_convertible(value: Box<UInt>) {
    }

    proof fn lemma_never_refused(value: Box<UInt>, e: IntoVariantError) {
    }

    proof fn lemma_there_and_back(
        value: Box<UInt>,
        field: Option<Box<u32>>,
        back: Result<Box<UInt>, FromVariantError>,
    ) {
    }
}

impl Sealed for Box<U16String> {

}

impl VariantAccess for Box<U16String> {
    type Field = Option<Box<Bstr>>;

    const VTYPE: u32 = VT_PBSTR;

    open spec fn spec_vtype() -> u32 {
        VT_PBSTR
    }

    open spec fn spec_into_var(inner: Option<Box<Bstr>>) -> Slot {
        Slot::Secondary(Payload::PbstrVal(inner))
    }

    open spec fn spec_readable(slot: Slot) -> bool {
        slot matches Slot::Secondary(Payload::PbstrVal(_))
    }

    open spec fn spec_from_var(slot: Slot) -> Option<Box<Bstr>> {
        match slot {
            Slot::Secondary(Payload::PbstrVal(x)) => x,
            _ => arbitrary(),
        }
    }

    open spec fn same(a: Box<U16String>, b: Box<U16String>) -> bool {
        wide_units(*a) == wide_units(*b)
    }

    fn from_var(n1: &Primary, n3: Payload) -> (field: Option<Box<Bstr>>) {
        match n3 {
            Payload::PbstrVal(x) => x,
            _ => unreached(),
        }
    }

    fn readable(n1: &Primary, n3: &Payload) -> (b: bool) {
        match n3 {
            Payload::PbstrVal(_) => true,
            _ => false,
        }
    }

    fn field_ref<'a>(n1: &'a Primary, n3: &'a Payload) -> (field: &'a Option<Box<Bstr>>) {
        match n3 {
            Payload::PbstrVal(x) => x,
            _ => unreached(),
        }
    }

    fn into_var(inner: Option<Box<Bstr>>, n1: &mut Primary, n3: &mut Payload) {
        *n3 = Payload::PbstrVal(inner);
    }

    proof fn lemma_vtype_fits() {
    }

    proof fn lemma_read_back(inner: Option<Box<Bstr>>) {
    }

    proof fn lemma_convertible(value: Box<U16String>) {
    }

    proof fn lemma_never_refused(value: Box<U16String>, e: IntoVariantError) {
    }

    proof fn lemma_there_and_back(
        value: Box<U16String>,
        field: Option<Box<Bstr>>,
        back: Result<Box<U16String>, FromVariantError>,
    ) {
    }
}

impl Sealed for Box<DecWrapper> {

}

impl VariantAccess for Box<DecWrapper> {
    type Field = Option<Box<DecimalRecord>>;

    const VTYPE: u32 = VT_PDECIMAL;

    open spec fn spec_vtype() -> u32 {
        VT_PDECIMAL
    }

    open spec fn spec_into_var(inner: Option<Box<DecimalRecord>>) -> Slot {
        Slot::Secondary(Payload::PdecVal(inner))
    }

    open spec fn spec_readable(slot: Slot) -> bool {
        slot matches Slot::Secondary(Payload::PdecVal(_))
    }

    open spec fn spec_from_var(slot: Slot) -> Option<Box<DecimalRecord>> {
        match slot {
            Slot::Secondary(Payload::PdecVal(x)) => x,
            _ => arbitrary(),
        }
    }

    open spec fn same(a: Box<DecWrapper>, b: Box<DecWrapper>) -> bool {
        same_decimal(a@, b@)
    }

    fn from_var(n1: &Primary, n3: Payload) -> (field: Option<Box<DecimalRecord>>) {
        match n3 {
            Payload::PdecVal(x) => x,
            _ => unreached(),
        }
    }

    fn readable(n1: &Primary, n3: &Payload) -> (b: bool) {
        match n3 {
            Payload::PdecVal(_) => true,
            _ => false,
        }
    }

    fn field_ref<'a>(
        n1: &'a Primary,
        n3: &'a Payload,
    ) -> (field: &'a Option<Box<DecimalRecord>>) {
        match n3 {
            Payload::PdecVal(x) => x,
            _ => unreached(),
        }
    }

    fn into_var(inner: Option<Box<DecimalRecord>>, n1: &mut Primary, n3: &mut Payload) {
        *n3 = Payload::PdecVal(inner);
    }

    proof fn lemma_vtype_fits() {
    }

    proof fn lemma_read_back(inner: Option<Box<DecimalRecord>>) {
    }

    proof fn lemma_convertible(value: Box<DecWrapper>) {
    }

    proof fn lemma_never_refused(value: Box<DecWrapper>, e: IntoVariantError) {
    }

    proof fn lemma_there_and_back(
        value: Box<DecWrapper>,
        field: Option<Box<DecimalRecord>>,
        back: Result<Box<DecWrapper>, FromVariantError>,
    ) {
        lemma_pack_unpack(value@);
    }
}

impl Sealed for Ptr<IUnknown> {

}

impl VariantAccess for Ptr<IUnknown> {
    type Field = usize;

    const VTYPE: u32 = VT_UNKNOWN;

    open spec fn spec_vtype() -> u32 {
        VT_UNKNOWN
    }

    open spec fn spec_into_var(inner: usize) -> Slot {
        Slot::Secondary(Payload::PunkVal(inner))
    }

    open spec fn spec_readable(slot: Slot) -> bool {
        slot matches Slot::Secondary(Payload::PunkVal(_))
    }

    open spec fn spec_from_var(slot: Slot) -> usize {
        match slot {
            Slot::Secondary(Payload::PunkVal(x)) => x,
            _ => arbitrary(),
        }
    }

    open spec fn same(a: Ptr<IUnknown>, b: Ptr<IUnknown>) -> bool {
        a == b
    }

    fn from_var(n1: &Primary, n3: Payload) -> (field: usize) {
        match n3 {
            Payload::PunkVal(x) => x,
            _ => unreached(),
        }
    }

    fn readable(n1: &Primary, n3: &Payload) -> (b: bool) {
        match n3 {
            Payload::PunkVal(_) => true,
            _ => false,
        }
    }

    fn field_ref<'a>(n1: &'a Primary, n3: &'a Payload) -> (field: &'a usize) {
        match n3 {
            Payload::PunkVal(x) => x,
            _ => unreached(),
        }
    }

    fn into_var(inner: usize, n1: &mut Primary, n3: &mut Payload) {
        *n3 = Payload::PunkVal(inner);
    }

    proof fn lemma_vtype_fits() {
    }

    proof fn lemma_read_back(inner: usize) {
    }

    proof fn lemma_convertible(value: Ptr<IUnknown>) {
    }

    proof fn lemma_never_refused(value: Ptr<IUnknown>, e: IntoVariantError) {
    }

    proof fn lemma_there_and_back(
        value: Ptr<IUnknown>,
        field: usize,
        back: Result<Ptr<IUnknown>, FromVariantError>,
    ) {
        Ptr::<IUnknown>::lemma_at_addr(value, field);
    }
}

impl Sealed for Box<Ptr<IUnknown>> {

}

impl VariantAccess for Box<Ptr<IUnknown>> {
    type Field = Option<Box<usize>>;

    const VTYPE: u32 = VT_PUNKNOWN;

    open spec fn spec_vtype() -> u32 {
        VT_PUNKNOWN
    }

    open spec fn spec_into_var(inner: Option<Box<usize>>) -> Slot {
        Slot::Secondary(Payload::PpunkVal(inner))
    }

    open spec fn spec_readable(slot: Slot) -> bool {
        slot matches Slot::Secondary(Payload::PpunkVal(_))
    }

    open spec fn spec_from_var(slot: Slot) -> Option<Box<usize>> {
        match slot {
            Slot::Secondary(Payload::PpunkVal(x)) => x,
            _ => arbitrary(),
        }
    }

    open spec fn same(a: Box<Ptr<IUnknown>>, b: Box<Ptr<IUnknown>>) -> bool {
        a == b
    }

    fn from_var(n1: &Primary, n3: Payload) -> (field: Option<Box<usize>>) {
        match n3 {
            Payload::PpunkVal(x) => x,
            _ => unreached(),
        }
    }

    fn readable(n1: &Primary, n3: &Payload) -> (b: bool) {
        match n3 {
            Payload::PpunkVal(_) => true,
            _ => false,
        }
    }

    fn field_ref<'a>(n1: &'a Primary, n3: &'a Payload) -> (field: &'a Option<Box<usize>>) {
        match n3 {
            Payload::PpunkVal(x) => x,
            _ => unreached(),
        }
    }

    fn into_var(inner: Option<Box<usize>>, n1: &mut Primary, n3: &mut Payload) {
        *n3 = Payload::PpunkVal(inner);
    }

    proof fn lemma_vtype_fits() {
    }

    proof fn lemma_read_back(inner: Option<Box<usize>>) {
    }

    proof fn lemma_convertible(value: Box<Ptr<IUnknown>>) {
    }

    proof fn lemma_never_refused(value: Box<Ptr<IUnknown>>, e: IntoVariantError) {
    }

    proof fn lemma_there_and_back(
        value: Box<Ptr<IUnknown>>,
        field: Option<Box<usize>>,
        back: Result<Box<Ptr<IUnknown>>, FromVariantError>,
    ) {
        Ptr::<IUnknown>::lemma_at_addr(*value, 0);
    }
}

impl Sealed for Ptr<IDispatch> {

}

impl VariantAccess for Ptr<IDispatch> {
    type Field = usize;

    const VTYPE: u32 = VT_DISPATCH;

    open spec fn spec_vtype() -> u32 {
        VT_DISPATCH
    }

    open spec fn spec_into_var(inner: usize) -> Slot {
        Slot::Secondary(Payload::PdispVal(inner))
    }

    open spec fn spec_readable(slot: Slot) -> bool {
        slot matches Slot::Secondary(Payload::PdispVal(_))
    }

    open spec fn spec_from_var(slot: Slot) -> usize {
        match slot {
            Slot::Secondary(Payload::PdispVal(x)) => x,
            _ => arbitrary(),
        }
    }

    open spec fn same(a: Ptr<IDispatch>, b: Ptr<IDispatch>) -> bool {
        a == b
    }

    fn from_var(n1: &Primary, n3: Payload) -> (field: usize) {
        match n3 {
            Payload::PdispVal(x) => x,
            _ => unreached(),
        }
    }

    fn readable(n1: &Primary, n3: &Payload) -> (b: bool) {
        match n3 {
            Payload::PdispVal(_) => true,
            _ => false,
        }
    }

    fn field_ref<'a>(n1: &'a Primary, n3: &'a Payload) -> (field: &'a usize) {
        match n3 {
            Payload::PdispVal(x) => x,
            _ => unreached(),
        }
    }

    fn into_var(inner: usize, n1: &mut Primary, n3: &mut Payload) {
        *n3 = Payload::PdispVal(inner);
    }

    proof fn lemma_vtype_fits() {
    }

    proof fn lemma_read_back(inner: usize) {
    }

    proof fn lemma_convertible(value: Ptr<IDispatch>) {
    }

    proof fn lemma_never_refused(value: Ptr<IDispatch>, e: IntoVariantError) {
    }

    proof fn lemma_there_and_back(
        value: Ptr<IDispatch>,
        field: usize,
        back: Result<Ptr<IDispatch>, FromVariantError>,
    ) {
        Ptr::<IDispatch>::lemma_at_addr(value, field);
    }
}

impl Sealed for Box<Ptr<IDispatch>> {

}

impl VariantAccess for Box<Ptr<IDispatch>> {
    type Field = Option<Box<usize>>;

    const VTYPE: u32 = VT_PDISPATCH;

    open spec fn spec_vtype() -> u32 {
        VT_PDISPATCH
    }

    open spec fn spec_into_var(inner: Option<Box<usize>>) -> Slot {
        Slot::Secondary(Payload::PpdispVal(inner))
    }

    open spec fn spec_readable(slot: Slot) -> bool {
        slot matches Slot::Secondary(Payload::PpdispVal(_))
    }

    open spec fn spec_from_var(slot: Slot) -> Option<Box<usize>> {
        match slot {
            Slot::Secondary(Payload::PpdispVal(x)) => x,
            _ => arbitrary(),
        }
    }

    open spec fn same(a: Box<Ptr<IDispatch>>, b: Box<Ptr<IDispatch>>) -> bool {
        a == b
    }

    fn from_var(n1: &Primary, n3: Payload) -> (field: Option<Box<usize>>) {
        match n3 {
            Payload::PpdispVal(x) => x,
            _ => unreached(),
        }
    }

    fn readable(n1: &Primary, n3: &Payload) -> (b: bool) {
        match n3 {
            Payload::PpdispVal(_) => true,
            _ => false,
        }
    }

    fn field_ref<'a>(n1: &'a Primary, n3: &'a Payload) -> (field: &'a Option<Box<usize>>) {
        match n3 {
            Payload::PpdispVal(x) => x,
            _ => unreached(),
        }
    }

    fn into_var(inner: Option<Box<usize>>, n1: &mut Primary, n3: &mut Payload) {
        *n3 = Payload::PpdispVal(inner);
    }

    proof fn lemma_vtype_fits() {
    }

    proof fn lemma_read_back(inner: Option<Box<usize>>) {
    }

    proof fn lemma_convertible(value: Box<Ptr<IDispatch>>) {
    }

    proof fn lemma_never_refused(value: Box<Ptr<IDispatch>>, e: IntoVariantError) {
    }

    proof fn lemma_there_and_back(
        value: Box<Ptr<IDispatch>>,
        field: Option<Box<usize>>,
        back: Result<Box<Ptr<IDispatch>>, FromVariantError>,
    ) {
        Ptr::<IDispatch>::lemma_at_addr(*value, 0);
    }
}

impl Sealed for Ptr<Void> {

}

impl VariantAccess for Ptr<Void> {
    type Field = usize;

    const VTYPE: u32 = VT_BYREF;

    open spec fn spec_vtype() -> u32 {
        VT_BYREF
    }

    open spec fn spec_into_var(inner: usize) -> Slot {
        Slot::Secondary(Payload::Byref(inner))
    }

    open spec fn spec_readable(slot: Slot) -> bool {
        slot matches Slot::Secondary(Payload::Byref(_))
    }

    open spec fn spec_from_var(slot: Slot) -> usize {
        match slot {
            Slot::Secondary(Payload::Byref(x)) => x,
            _ => arbitrary(),
        }
    }

    open spec fn same(a: Ptr<Void>, b: Ptr<Void>) -> bool {
        a == b
    }

    fn from_var(n1: &Primary, n3: Payload) -> (field: usize) {
        match n3 {
            Payload::Byref(x) => x,
            _ => unreached(),
        }
    }

    fn readable(n1: &Primary, n3: &Payload) -> (b: bool) {
        match n3 {
            Payload::Byref(_) => true,
            _ => false,
        }
    }

    fn field_ref<'a>(n1: &'a Primary, n3: &'a Payload) -> (field: &'a usize) {
        match n3 {
            Payload::Byref(x) => x,
            _ => unreached(),
        }
    }

    fn into_var(inner: usize, n1: &mut Primary, n3: &mut Payload) {
        *n3 = Payload::Byref(inner);
    }

    proof fn lemma_vtype_fits() {
    }

    proof fn lemma_read_back(inner: usize) {
    }

    proof fn lemma_convertible(value: Ptr<Void>) {
    }

    proof fn lemma_never_refused(value: Ptr<Void>, e: IntoVariantError) {
    }

    proof fn lemma_there_and_back(
        value: Ptr<Void>,
        field: usize,
        back: Result<Ptr<Void>, FromVariantError>,
    ) {
        Ptr::<Void>::lemma_at_addr(value, field);
    }
}

impl<D, T> Sealed for Variant<D, T> where D: VariantExt<T> {

}

/// A wrapped value is stored as a pointer to the record of the value inside.
impl<D, T> VariantAccess for Variant<D, T> where D: VariantExt<T> {
    type Field = Option<Box<VariantRecord>>;

    const VTYPE: u32 = VT_VARIANT;

    open spec fn spec_vtype() -> u32 {
        VT_VARIANT
    }

    open spec fn spec_into_var(inner: Option<Box<VariantRecord>>) -> Slot {
        Slot::Secondary(Payload::PvarVal(inner))
    }

    open spec fn spec_readable(slot: Slot) -> bool {
        slot matches Slot::Secondary(Payload::PvarVal(_))
    }

    open spec fn spec_from_var(slot: Slot) -> Option<Box<VariantRecord>> {
        match slot {
            Slot::Secondary(Payload::PvarVal(x)) => x,
            _ => arbitrary(),
        }
    }

    open spec fn same(a: Variant<D, T>, b: Variant<D, T>) -> bool {
        D::same_value(a.spec_unwrap(), b.spec_unwrap())
    }

    fn from_var(n1: &Primary, n3: Payload) -> (field: Option<Box<VariantRecord>>) {
        match n3 {
            Payload::PvarVal(x) => x,
            _ => unreached(),
        }
    }

    fn readable(n1: &Primary, n3: &Payload) -> (b: bool) {
        match n3 {
            Payload::PvarVal(_) => true,
            _ => false,
        }
    }

    fn field_ref<'a>(
        n1: &'a Primary,
        n3: &'a Payload,
    ) -> (field: &'a Option<Box<VariantRecord>>) {
        match n3 {
            Payload::PvarVal(x) => x,
            _ => unreached(),
        }
    }

    fn into_var(inner: Option<Box<VariantRecord>>, n1: &mut Primary, n3: &mut Payload) {
        *n3 = Payload::PvarVal(inner);
    }

    proof fn lemma_vtype_fits() {
    }

    proof fn lemma_read_back(inner: Option<Box<VariantRecord>>) {
    }

    proof fn lemma_convertible(value: Variant<D, T>) {
    }

    proof fn lemma_never_refused(value: Variant<D, T>, e: IntoVariantError) {
        if D::encodes(value.spec_unwrap(), Err(e)) {
            D::lemma_encode_succeeds(value.spec_unwrap(), Err(e));
        }
    }

    proof fn lemma_there_and_back(
        value: Variant<D, T>,
        field: Option<Box<VariantRecord>>,
        back: Result<Variant<D, T>, FromVariantError>,
    ) {
        let var = *field->Some_0;
        match back {
            Ok(v) => D::lemma_round_trip(value.spec_unwrap(), var, Ok(v.spec_unwrap())),
            Err(e) => D::lemma_round_trip(value.spec_unwrap(), var, Err(e)),
        }
    }
}

impl<S: SafeArrayElement> Sealed for Vec<S> {

}

/// A sequence is stored as a pointer to its array descriptor.
impl<S: SafeArrayElement> VariantAccess for Vec<S> {
    type Field = Option<Box<SafeArray>>;

    const VTYPE: u32 = VT_ARRAY;

    open spec fn spec_vtype() -> u32 {
        VT_ARRAY
    }

    open spec fn spec_into_var(inner: Option<Box<SafeArray>>) -> Slot {
        Slot::Secondary(Payload::Parray(inner))
    }

    open spec fn spec_readable(slot: Slot) -> bool {
        slot matches Slot::Secondary(Payload::Parray(_))
    }

    open spec fn spec_from_var(slot: Slot) -> Option<Box<SafeArray>> {
        match slot {
            Slot::Secondary(Payload::Parray(x)) => x,
            _ => arbitrary(),
        }
    }

    open spec fn same(a: Vec<S>, b: Vec<S>) -> bool {
        same_elements::<S>(a@, b@)
    }

    fn from_var(n1: &Primary, n3: Payload) -> (field: Option<Box<SafeArray>>) {
        match n3 {
            Payload::Parray(x) => x,
            _ => unreached(),
        }
    }

    fn readable(n1: &Primary, n3: &Payload) -> (b: bool) {
        match n3 {
            Payload::Parray(_) => true,
            _ => false,
        }
    }

    fn field_ref<'a>(n1: &'a Primary, n3: &'a Payload) -> (field: &'a Option<Box<SafeArray>>) {
        match n3 {
            Payload::Parray(x) => x,
            _ => unreached(),
        }
    }

    fn into_var(inner: Option<Box<SafeArray>>, n1: &mut Primary, n3: &mut Payload) {
        *n3 = Payload::Parray(inner);
    }

    proof fn lemma_vtype_fits() {
    }

    proof fn lemma_read_back(inner: Option<Box<SafeArray>>) {
    }

    proof fn lemma_convertible(value: Vec<S>) {
    }

    proof fn lemma_never_refused(value: Vec<S>, e: IntoVariantError) {
        lemma_array_never_refused::<S>(value@, e);
    }

    proof fn lemma_there_and_back(
        value: Vec<S>,
        field: Option<Box<SafeArray>>,
        back: Result<Vec<S>, FromVariantError>,
    ) {
        match field {
            Some(array) => lemma_cells_round_trip::<S>(value@, array.cells@, back),
            None => {},
        }
    }
}

impl<S: SafeArrayElement> Sealed for Box<Vec<S>> {

}

impl<S: SafeArrayElement> VariantAccess for Box<Vec<S>> {
    type Field = Option<Box<Option<Box<SafeArray>>>>;

    const VTYPE: u32 = VT_PARRAY;

    open spec fn spec_vtype() -> u32 {
        VT_PARRAY
    }

    open spec fn spec_into_var(inner: Option<Box<Option<Box<SafeArray>>>>) -> Slot {
        Slot::Secondary(Payload::Pparray(inner))
    }

    open spec fn spec_readable(slot: Slot) -> bool {
        slot matches Slot::Secondary(Payload::Pparray(_))
    }

    open spec fn spec_from_var(slot: Slot) -> Option<Box<Option<Box<SafeArray>>>> {
        match slot {
            Slot::Secondary(Payload::Pparray(x)) => x,
            _ => arbitrary(),
        }
    }

    open spec fn same(a: Box<Vec<S>>, b: Box<Vec<S>>) -> bool {
        same_elements::<S>(a@, b@)
    }

    fn from_var(n1: &Primary, n3: Payload) -> (field: Option<Box<Option<Box<SafeArray>>>>) {
        match n3 {
            Payload::Pparray(x) => x,
            _ => unreached(),
        }
    }

    fn readable(n1: &Primary, n3: &Payload) -> (b: bool) {
        match n3 {
            Payload::Pparray(_) => true,
            _ => false,
        }
    }

    fn field_ref<'a>(
        n1: &'a Primary,
        n3: &'a Payload,
    ) -> (field: &'a Option<Box<Option<Box<SafeArray>>>>) {
        match n3 {
            Payload::Pparray(x) => x,
            _ => unreached(),
        }
    }

    fn into_var(inner: Option<Box<Option<Box<SafeArray>>>>, n1: &mut Primary, n3: &mut Payload) {
        *n3 = Payload::Pparray(inner);
    }

    proof fn lemma_vtype_fits() {
    }

    proof fn lemma_read_back(inner: Option<Box<Option<Box<SafeArray>>>>) {
    }

    proof fn lemma_convertible(value: Box<Vec<S>>) {
    }

    proof fn lemma_never_refused(value: Box<Vec<S>>, e: IntoVariantError) {
        lemma_array_never_refused::<S>(value@, e);
    }

    proof fn lemma_there_and_back(
        value: Box<Vec<S>>,
        field: Option<Box<Option<Box<SafeArray>>>>,
        back: Result<Box<Vec<S>>, FromVariantError>,
    ) {
        let cells = (*field->Some_0)->Some_0.cells@;
        match back {
            Ok(v) => lemma_cells_round_trip::<S>(value@, cells, Ok(*v)),
            Err(e) => lemma_cells_round_trip::<S>(value@, cells, Err(e)),
        }
    }
}

/// Whether the record can be decoded as `T` and decoding it reports a null
/// pointer, whatever else it holds.
pub open spec fn reports_null<T: VariantExt<F>, F>(var: VariantRecord) -> bool {
    &&& T::decodable(var)
    &&& forall|out: Result<T, FromVariantError>| #[trigger]
        T::decodes(var, out) <==> out == Err::<T, FromVariantError>(
            FromVariantError::VariantPtrNull,
        )
}

/// A record of a boxed type whose pointer is null can be decoded, and decoding
/// it reports the null pointer.
pub proof fn lemma_null_pointer_decode()
    ensures
        reports_null::<Box<u8>, Option<Box<u8>>>(tagged_record(VT_PUI1, Payload::PbVal(None))),
        reports_null::<Box<i16>, Option<Box<i16>>>(tagged_record(VT_PI2, Payload::PiVal(None))),
        reports_null::<Box<i32>, Option<Box<i32>>>(tagged_record(VT_PI4, Payload::PlVal(None))),
        reports_null::<Box<i64>, Option<Box<i64>>>(tagged_record(VT_PI8, Payload::PllVal(None))),
        reports_null::<Box<i8>, Option<Box<i8>>>(tagged_record(VT_PI1, Payload::PcVal(None))),
        reports_null::<Box<u16>, Option<Box<u16>>>(tagged_record(VT_PUI2, Payload::PuiVal(None))),
        reports_null::<Box<u32>, Option<Box<u32>>>(tagged_record(VT_PUI4, Payload::PulVal(None))),
        reports_null::<Box<u64>, Option<Box<u64>>>(tagged_record(VT_PUI8, Payload::PullVal(None))),
        reports_null::<Box<F32Bits>, Option<Box<u32>>>(
            tagged_record(VT_PR4, Payload::PfltVal(None)),
        ),
        reports_null::<Box<F64Bits>, Option<Box<u64>>>(
            tagged_record(VT_PR8, Payload::PdblVal(None)),
        ),
        reports_null::<Box<VariantBool>, Option<Box<i16>>>(
            tagged_record(VT_PBOOL, Payload::PboolVal(None)),
        ),
        reports_null::<Box<SCode>, Option<Box<i32>>>(
            tagged_record(VT_PERROR, Payload::Pscode(None)),
        ),
        reports_null::<Box<Currency>, Option<Box<Cy>>>(
            tagged_record(VT_PCY, Payload::PcyVal(None)),
        ),
        reports_null::<Box<Date>, Option<Box<u64>>>(tagged_record(VT_PDATE, Payload::Pdate(None))),
        reports_null::<Box<Int>, Option<Box<i32>>>(tagged_record(VT_PINT, Payload::PintVal(None))),
        reports_null::<Box<UInt>, Option<Box<u32>>>(
            tagged_record(VT_PUINT, Payload::PuintVal(None)),
        ),
        reports_null::<Box<U16String>, Option<Box<Bstr>>>(
            tagged_record(VT_PBSTR, Payload::PbstrVal(None)),
        ),
        reports_null::<Box<DecWrapper>, Option<Box<DecimalRecord>>>(
            tagged_record(VT_PDECIMAL, Payload::PdecVal(None)),
        ),
        reports_null::<Box<Ptr<IUnknown>>, Option<Box<usize>>>(
            tagged_record(VT_PUNKNOWN, Payload::PpunkVal(None)),
        ),
        reports_null::<Box<Ptr<IDispatch>>, Option<Box<usize>>>(
            tagged_record(VT_PDISPATCH, Payload::PpdispVal(None)),
        ),
{
}
impl Sealed for U16String {

}

impl VariantAccess for U16String {
    type Field = Bstr;

    const VTYPE: u32 = VT_BSTR;

    open spec fn spec_vtype() -> u32 {
        VT_BSTR
    }

    open spec fn spec_into_var(inner: Bstr) -> Slot {
        Slot::Secondary(Payload::BstrVal(inner))
    }

    open spec fn spec_readable(slot: Slot) -> bool {
        slot matches Slot::Secondary(Payload::BstrVal(_))
    }

    open spec fn spec_from_var(slot: Slot) -> Bstr {
        match slot {
            Slot::Secondary(Payload::BstrVal(x)) => x,
            _ => arbitrary(),
        }
    }

    open spec fn same(a: U16String, b: U16String) -> bool {
        wide_units(a) == wide_units(b)
    }

    fn from_var(n1: &Primary, n3: Payload) -> (field: Bstr) {
        match n3 {
            Payload::BstrVal(x) => x,
            _ => unreached(),
        }
    }

    fn readable(n1: &Primary, n3: &Payload) -> (b: bool) {
        match n3 {
            Payload::BstrVal(_) => true,
            _ => false,
        }
    }

    fn field_ref<'a>(n1: &'a Primary, n3: &'a Payload) -> (field: &'a Bstr) {
        match n3 {
            Payload::BstrVal(x) => x,
            _ => unreached(),
        }
    }

    fn into_var(inner: Bstr, n1: &mut Primary, n3: &mut Payload) {
        *n3 = Payload::BstrVal(inner);
    }

    proof fn lemma_vtype_fits() {
    }

    proof fn lemma_read_back(inner: Bstr) {
    }

    proof fn lemma_convertible(value: U16String) {
    }

    proof fn lemma_never_refused(value: U16String, e: IntoVariantError) {
    }

    proof fn lemma_there_and_back(
        value: U16String,
        field: Bstr,
        back: Result<U16String, FromVariantError>,
    ) {
    }
}

impl Sealed for DecWrapper {

}

/// The decimal goes around the union: it is stored over the primary half.
impl VariantAccess for DecWrapper {
    type Field = DecimalRecord;

    const VTYPE: u32 = VT_DECIMAL;

    open spec fn spec_vtype() -> u32 {
        VT_DECIMAL
    }

    open spec fn spec_into_var(inner: DecimalRecord) -> Slot {
        Slot::Primary(Primary::Decimal(inner))
    }

    open spec fn spec_readable(slot: Slot) -> bool {
        slot matches Slot::Primary(Primary::Decimal(_))
    }

    open spec fn spec_from_var(slot: Slot) -> DecimalRecord {
        match slot {
            Slot::Primary(Primary::Decimal(d)) => d,
            _ => arbitrary(),
        }
    }

    open spec fn same(a: DecWrapper, b: DecWrapper) -> bool {
        same_decimal(a@, b@)
    }

    fn from_var(n1: &Primary, n3: Payload) -> (field: DecimalRecord) {
        match n1 {
            Primary::Decimal(d) => *d,
            _ => unreached(),
        }
    }

    fn readable(n1: &Primary, n3: &Payload) -> (b: bool) {
        match n1 {
            Primary::Decimal(_) => true,
            _ => false,
        }
    }

    fn field_ref<'a>(n1: &'a Primary, n3: &'a Payload) -> (field: &'a DecimalRecord) {
        match n1 {
            Primary::Decimal(d) => d,
            _ => unreached(),
        }
    }

    fn into_var(inner: DecimalRecord, n1: &mut Primary, n3: &mut Payload) {
        *n1 = Primary::Decimal(inner);
    }

    proof fn lemma_vtype_fits() {
    }

    proof fn lemma_read_back(inner: DecimalRecord) {
    }

    proof fn lemma_convertible(value: DecWrapper) {
    }

    proof fn lemma_never_refused(value: DecWrapper, e: IntoVariantError) {
    }

    proof fn lemma_there_and_back(
        value: DecWrapper,
        field: DecimalRecord,
        back: Result<DecWrapper, FromVariantError>,
    ) {
        lemma_pack_unpack(value@);
    }
}

impl Sealed for VtEmpty {

}

/// The empty value claims a tag and stores nothing.
impl VariantAccess for VtEmpty {
    type Field = ();

    const VTYPE: u32 = VT_EMPTY;

    open spec fn spec_vtype() -> u32 {
        VT_EMPTY
    }

    open spec fn spec_into_var(inner: ()) -> Slot {
        Slot::Nothing
    }

    open spec fn spec_readable(slot: Slot) -> bool {
        true
    }

    open spec fn spec_from_var(slot: Slot) -> () {
        ()
    }

    open spec fn same(a: VtEmpty, b: VtEmpty) -> bool {
        a == b
    }

    fn from_var(n1: &Primary, n3: Payload) -> (field: ()) {
        ()
    }

    fn readable(n1: &Primary, n3: &Payload) -> (b: bool) {
        true
    }

    fn field_ref<'a>(n1: &'a Primary, n3: &'a Payload) -> (field: &'a ()) {
        &()
    }

    fn into_var(inner: (), n1: &mut Primary, n3: &mut Payload) {
    }

    proof fn lemma_vtype_fits() {
    }

    proof fn lemma_read_back(inner: ()) {
    }

    proof fn lemma_convertible(value: VtEmpty) {
    }

    proof fn lemma_never_refused(value: VtEmpty, e: IntoVariantError) {
    }

    proof fn lemma_there_and_back(
        value: VtEmpty,
        field: (),
        back: Result<VtEmpty, FromVariantError>,
    ) {
    }
}

impl Sealed for VtNull {

}

/// The null value claims a tag and stores nothing.
impl VariantAccess for VtNull {
    type Field = ();

    const VTYPE: u32 = VT_NULL;

    open spec fn spec_vtype() -> u32 {
        VT_NULL
    }

    open spec fn spec_into_var(inner: ()) -> Slot {
        Slot::Nothing
    }

    open spec fn spec_readable(slot: Slot) -> bool {
        true
    }

    open spec fn spec_from_var(slot: Slot) -> () {
        ()
    }

    open spec fn same(a: VtNull, b: VtNull) -> bool {
        a == b
    }

    fn from_var(n1: &Primary, n3: Payload) -> (field: ()) {
        ()
    }

    fn readable(n1: &Primary, n3: &Payload) -> (b: bool) {
        true
    }

    fn field_ref<'a>(n1: &'a Primary, n3: &'a Payload) -> (field: &'a ()) {
        &()
    }

    fn into_var(inner: (), n1: &mut Primary, n3: &mut Payload) {
    }

    proof fn lemma_vtype_fits() {
    }

    proof fn lemma_read_back(inner: ()) {
    }

    proof fn lemma_convertible(value: VtNull) {
    }

    proof fn lemma_never_refused(value: VtNull, e: IntoVariantError) {
    }

    proof fn lemma_there_and_back(
        value: VtNull,
        field: (),
        back: Result<VtNull, FromVariantError>,
    ) {
    }
}

} // verus!

//! Scalar wrapper types: protocol primitives that have no exact native
//! equivalent, each a transparent wrapper with lossless conversions to and
//! from its primitive and its binary form.

use crate::decimal::{
    decimal_bytes, decimal_from_parts, decimal_is_sign_positive, decimal_scale, decimal_serialize,
    lemma_shift_is_scale, lemma_split_low64, pack_spec, unpack_spec, DecimalRecord, DECIMAL_NEG,
    MAX_SCALE,
};
use crate::errors::FromVariantError;
use rust_decimal::Decimal;
use std::num::TryFromIntError;
use vstd::prelude::*;
use vstd::std_specs::convert::{FromSpec, FromSpecImpl, TryFromSpecImpl};

verus! {

/// The code that stands for `true` in a two-state boolean field: all bits set.
pub const VARIANT_TRUE: i16 = -1;

/// The binary form of a currency amount: a signed 64-bit integer, the amount
/// scaled by 10,000.
#[derive(Clone, Copy, Debug, PartialEq, Eq, Structural, Hash)]
pub struct Cy {
    /// The amount times 10,000.
    pub int64: i64,
}

/// A fixed-point currency amount with four implied decimal places. The
/// wrapper does not scale or round: it holds the scaled integer as given.
#[derive(Clone, Copy, Debug, PartialEq, Eq, Structural, Hash, PartialOrd)]
pub struct Currency(pub i64);

impl From<i64> for Currency {
    /// Wraps the scaled amount.
    fn from(i: i64) -> (r: Currency) {
        Currency(i)
    }
}

impl FromSpecImpl<i64> for Currency {
    open spec fn obeys_from_spec() -> bool {
        true
    }

    open spec fn from_spec(i: i64) -> Currency {
        Currency(i)
    }
}

impl<'a> From<&'a i64> for Currency {
    /// Wraps the scaled amount.
    fn from(i: &i64) -> (r: Currency) {
        Currency(*i)
    }
}

impl<'a> FromSpecImpl<&'a i64> for Currency {
    open spec fn obeys_from_spec() -> bool {
        true
    }

    open spec fn from_spec(i: &i64) -> Currency {
        Currency(*i)
    }
}

impl<'a> From<&'a mut i64> for Currency {
    /// Wraps the scaled amount.
    fn from(i: &mut i64) -> (r: Currency)
        ensures
            *final(i) == *old(i),
    {
        Currency(*i)
    }
}

impl<'a> FromSpecImpl<&'a mut i64> for Currency {
    open spec fn obeys_from_spec() -> bool {
        true
    }

    open spec fn from_spec(i: &mut i64) -> Currency {
        Currency(*i)
    }
}

impl From<Currency> for i64 {
    /// Gives back the scaled amount.
    fn from(o: Currency) -> (r: i64) {
        o.0
    }
}

impl FromSpecImpl<Currency> for i64 {
    open spec fn obeys_from_spec() -> bool {
        true
    }

    open spec fn from_spec(o: Currency) -> i64 {
        o.0
    }
}

impl<'a> From<&'a Currency> for i64 {
    /// Gives back the scaled amount.
    fn from(o: &Currency) -> (r: i64) {
        o.0
    }
}

impl<'a> FromSpecImpl<&'a Currency> for i64 {
    open spec fn obeys_from_spec() -> bool {
        true
    }

    open spec fn from_spec(o: &Currency) -> i64 {
        o.0
    }
}

impl<'a> From<&'a mut Currency> for i64 {
    /// Gives back the scaled amount.
    fn from(o: &mut Currency) -> (r: i64)
        ensures
            *final(o) == *old(o),
    {
        o.0
    }
}

impl<'a> FromSpecImpl<&'a mut Currency> for i64 {
    open spec fn obeys_from_spec() -> bool {
        true
    }

    open spec fn from_spec(o: &mut Currency) -> i64 {
        o.0
    }
}

impl From<Cy> for Currency {
    /// Reads the amount out of its binary form.
    fn from(cy: Cy) -> (r: Currency) {
        Currency(cy.int64)
    }
}

impl FromSpecImpl<Cy> for Currency {
    open spec fn obeys_from_spec() -> bool {
        true
    }

    open spec fn from_spec(cy: Cy) -> Currency {
        Currency(cy.int64)
    }
}

impl<'a> From<&'a Cy> for Currency {
    /// Reads the amount out of its binary form.
    fn from(cy: &Cy) -> (r: Currency) {
        Currency(cy.int64)
    }
}

impl<'a> FromSpecImpl<&'a Cy> for Currency {
    open spec fn obeys_from_spec() -> bool {
        true
    }

    open spec fn from_spec(cy: &Cy) -> Currency {
        Currency(cy.int64)
    }
}

impl<'a> From<&'a mut Cy> for Currency {
    /// Reads the amount out of its binary form.
    fn from(cy: &mut Cy) -> (r: Currency)
        ensures
            *final(cy) == *old(cy),
    {
        Currency(cy.int64)
    }
}

impl<'a> FromSpecImpl<&'a mut Cy> for Currency {
    open spec fn obeys_from_spec() -> bool {
        true
    }

    open spec fn from_spec(cy: &mut Cy) -> Currency {
        Currency(cy.int64)
    }
}

impl From<Currency> for Cy {
    /// Writes the amount in its binary form.
    fn from(cy: Currency) -> (r: Cy) {
        Cy { int64: cy.0 }
    }
}

impl FromSpecImpl<Currency> for Cy {
    open spec fn obeys_from_spec() -> bool {
        true
    }

    open spec fn from_spec(cy: Currency) -> Cy {
        Cy { int64: cy.0 }
    }
}

impl<'a> From<&'a Currency> for Cy {
    /// Writes the amount in its binary form.
    fn from(cy: &Currency) -> (r: Cy) {
        Cy { int64: cy.0 }
    }
}

impl<'a> FromSpecImpl<&'a Currency> for Cy {
    open spec fn obeys_from_spec() -> bool {
        true
    }

    open spec fn from_spec(cy: &Currency) -> Cy {
        Cy { int64: cy.0 }
    }
}

impl<'a> From<&'a mut Currency> for Cy {
    /// Writes the amount in its binary form.
    fn from(cy: &mut Currency) -> (r: Cy)
        ensures
            *final(cy) == *old(cy),
    {
        Cy { int64: cy.0 }
    }
}

impl<'a> FromSpecImpl<&'a mut Currency> for Cy {
    open spec fn obeys_from_spec() -> bool {
        true
    }

    open spec fn from_spec(cy: &mut Currency) -> Cy {
        Cy { int64: cy.0 }
    }
}

impl Currency {
    /// A borrow of the scaled amount.
    pub fn as_ref(&self) -> (r: &i64)
        ensures
            *r == self.0,
    {
        &self.0
    }
}

/// A day-count date. The count is a double; it is held here by its bit
/// pattern, which is what the record stores.
#[derive(Clone, Copy, Debug, PartialEq, Eq, Structural, Hash)]
pub struct Date(pub u64);

impl From<u64> for Date {
    /// Wraps the bits of the day count.
    fn from(i: u64) -> (r: Date) {
        Date(i)
    }
}

impl FromSpecImpl<u64> for Date {
    open spec fn obeys_from_spec() -> bool {
        true
    }

    open spec fn from_spec(i: u64) -> Date {
        Date(i)
    }
}

impl<'a> From<&'a u64> for Date {
    /// Wraps the bits of the day count.
    fn from(i: &u64) -> (r: Date) {
        Date(*i)
    }
}

impl<'a> FromSpecImpl<&'a u64> for Date {
    open spec fn obeys_from_spec() -> bool {
        true
    }

    open spec fn from_spec(i: &u64) -> Date {
        Date(*i)
    }
}

impl<'a> From<&'a mut u64> for Date {
    /// Wraps the bits of the day count.
    fn from(i: &mut u64) -> (r: Date)
        ensures
            *final(i) == *old(i),
    {
        Date(*i)
    }
}

impl<'a> FromSpecImpl<&'a mut u64> for Date {
    open spec fn obeys_from_spec() -> bool {
        true
    }

    open spec fn from_spec(i: &mut u64) -> Date {
        Date(*i)
    }
}

impl From<Date> for u64 {
    /// Gives back the bits of the day count.
    fn from(o: Date) -> (r: u64) {
        o.0
    }
}

impl FromSpecImpl<Date> for u64 {
    open spec fn obeys_from_spec() -> bool {
        true
    }

    open spec fn from_spec(o: Date) -> u64 {
        o.0
    }
}

impl<'a> From<&'a Date> for u64 {
    /// Gives back the bits of the day count.
    fn from(o: &Date) -> (r: u64) {
        o.0
    }
}

impl<'a> FromSpecImpl<&'a Date> for u64 {
    open spec fn obeys_from_spec() -> bool {
        true
    }

    open spec fn from_spec(o: &Date) -> u64 {
        o.0
    }
}

impl<'a> From<&'a mut Date> for u64 {
    /// Gives back the bits of the day count.
    fn from(o: &mut Date) -> (r: u64)
        ensures
            *final(o) == *old(o),
    {
        o.0
    }
}

impl<'a> FromSpecImpl<&'a mut Date> for u64 {
    open spec fn obeys_from_spec() -> bool {
        true
    }

    open spec fn from_spec(o: &mut Date) -> u64 {
        o.0
    }
}

impl Date {
    /// A borrow of the bits of the day count.
    pub fn as_ref(&self) -> (r: &u64)
        ensures
            *r == self.0,
    {
        &self.0
    }
}

/// A 32-bit float, held by its bit pattern.
#[derive(Clone, Copy, Debug, PartialEq, Eq, Structural, Hash)]
pub struct F32Bits(pub u32);

impl From<u32> for F32Bits {
    /// Wraps the bits of the number.
    fn from(i: u32) -> (r: F32Bits) {
        F32Bits(i)
    }
}

impl FromSpecImpl<u32> for F32Bits {
    open spec fn obeys_from_spec() -> bool {
        true
    }

    open spec fn from_spec(i: u32) -> F32Bits {
        F32Bits(i)
    }
}

impl<'a> From<&'a u32> for F32Bits {
    /// Wraps the bits of the number.
    fn from(i: &u32) -> (r: F32Bits) {
        F32Bits(*i)
    }
}

impl<'a> FromSpecImpl<&'a u32> for F32Bits {
    open spec fn obeys_from_spec() -> bool {
        true
    }

    open spec fn from_spec(i: &u32) -> F32Bits {
        F32Bits(*i)
    }
}

impl<'a> From<&'a mut u32> for F32Bits {
    /// Wraps the bits of the number.
    fn from(i: &mut u32) -> (r: F32Bits)
        ensures
            *final(i) == *old(i),
    {
        F32Bits(*i)
    }
}

impl<'a> FromSpecImpl<&'a mut u32> for F32Bits {
    open spec fn obeys_from_spec() -> bool {
        true
    }

    open spec fn from_spec(i: &mut u32) -> F32Bits {
        F32Bits(*i)
    }
}

impl From<F32Bits> for u32 {
    /// Gives back the bits of the number.
    fn from(o: F32Bits) -> (r: u32) {
        o.0
    }
}

impl FromSpecImpl<F32Bits> for u32 {
    open spec fn obeys_from_spec() -> bool {
        true
    }

    open spec fn from_spec(o: F32Bits) -> u32 {
        o.0
    }
}

impl<'a> From<&'a F32Bits> for u32 {
    /// Gives back the bits of the number.
    fn from(o: &F32Bits) -> (r: u32) {
        o.0
    }
}

impl<'a> FromSpecImpl<&'a F32Bits> for u32 {
    open spec fn obeys_from_spec() -> bool {
        true
    }

    open spec fn from_spec(o: &F32Bits) -> u32 {
        o.0
    }
}

impl<'a> From<&'a mut F32Bits> for u32 {
    /// Gives back the bits of the number.
    fn from(o: &mut F32Bits) -> (r: u32)
        ensures
            *final(o) == *old(o),
    {
        o.0
    }
}

impl<'a> FromSpecImpl<&'a mut F32Bits> for u32 {
    open spec fn obeys_from_spec() -> bool {
        true
    }

    open spec fn from_spec(o: &mut F32Bits) -> u32 {
        o.0
    }
}

impl F32Bits {
    /// A borrow of the bits of the number.
    pub fn as_ref(&self) -> (r: &u32)
        ensures
            *r == self.0,
    {
        &self.0
    }
}

/// A 64-bit float, held by its bit pattern.
#[derive(Clone, Copy, Debug, PartialEq, Eq, Structural, Hash)]
pub struct F64Bits(pub u64);

impl From<u64> for F64Bits {
    /// Wraps the bits of the number.
    fn from(i: u64) -> (r: F64Bits) {
        F64Bits(i)
    }
}

impl FromSpecImpl<u64> for F64Bits {
    open spec fn obeys_from_spec() -> bool {
        true
    }

    open spec fn from_spec(i: u64) -> F64Bits {
        F64Bits(i)
    }
}

impl<'a> From<&'a u64> for F64Bits {
    /// Wraps the bits of the number.
    fn from(i: &u64) -> (r: F64Bits) {
        F64Bits(*i)
    }
}

impl<'a> FromSpecImpl<&'a u64> for F64Bits {
    open spec fn obeys_from_spec() -> bool {
        true
    }

    open spec fn from_spec(i: &u64) -> F64Bits {
        F64Bits(*i)
    }
}

impl<'a> From<&'a mut u64> for F64Bits {
    /// Wraps the bits of the number.
    fn from(i: &mut u64) -> (r: F64Bits)
        ensures
            *final(i) == *old(i),
    {
        F64Bits(*i)
    }
}

impl<'a> FromSpecImpl<&'a mut u64> for F64Bits {
    open spec fn obeys_from_spec() -> bool {
        true
    }

    open spec fn from_spec(i: &mut u64) -> F64Bits {
        F64Bits(*i)
    }
}

impl From<F64Bits> for u64 {
    /// Gives back the bits of the number.
    fn from(o: F64Bits) -> (r: u64) {
        o.0
    }
}

impl FromSpecImpl<F64Bits> for u64 {
    open spec fn obeys_from_spec() -> bool {
        true
    }

    open spec fn from_spec(o: F64Bits) -> u64 {
        o.0
    }
}

impl<'a> From<&'a F64Bits> for u64 {
    /// Gives back the bits of the number.
    fn from(o: &F64Bits) -> (r: u64) {
        o.0
    }
}

impl<'a> FromSpecImpl<&'a F64Bits> for u64 {
    open spec fn obeys_from_spec() -> bool {
        true
    }

    open spec fn from_spec(o: &F64Bits) -> u64 {
        o.0
    }
}

impl<'a> From<&'a mut F64Bits> for u64 {
    /// Gives back the bits of the number.
    fn from(o: &mut F64Bits) -> (r: u64)
        ensures
            *final(o) == *old(o),
    {
        o.0
    }
}

impl<'a> FromSpecImpl<&'a mut F64Bits> for u64 {
    open spec fn obeys_from_spec() -> bool {
        true
    }

    open spec fn from_spec(o: &mut F64Bits) -> u64 {
        o.0
    }
}

impl F64Bits {
    /// A borrow of the bits of the number.
    pub fn as_ref(&self) -> (r: &u64)
        ensures
            *r == self.0,
    {
        &self.0
    }
}

/// A 96-bit decimal. Its view is the serialized form of the decimal it wraps.
#[derive(Clone, Copy, Debug, PartialEq, Eq, Hash, PartialOrd, Ord)]
pub struct DecWrapper(Decimal);

impl View for DecWrapper {
    type V = Seq<u8>;

    closed spec fn view(&self) -> Seq<u8> {
        decimal_bytes(self.0)
    }
}

impl DecWrapper {
    /// Wraps a decimal.
    pub fn new(dec: Decimal) -> (w: DecWrapper)
        ensures
            w@ == decimal_bytes(dec),
    {
        DecWrapper(dec)
    }

    /// Gives the wrapped decimal, consuming the wrapper.
    pub fn unwrap(self) -> (dec: Decimal)
        ensures
            decimal_bytes(dec) == self@,
    {
        self.0
    }

    /// A borrow of the wrapped decimal.
    pub fn borrow(&self) -> (dec: &Decimal)
        ensures
            decimal_bytes(*dec) == self@,
    {
        &self.0
    }

    /// A mutable borrow of the wrapped decimal: what is written through it is
    /// what the wrapper holds afterwards.
    pub fn borrow_mut(&mut self) -> (dec: &mut Decimal)
        ensures
            decimal_bytes(*dec) == old(self)@,
            final(self)@ == decimal_bytes(*final(dec)),
    {
        &mut self.0
    }

    /// A borrow of the wrapped decimal.
    pub fn as_ref(&self) -> (dec: &Decimal)
        ensures
            decimal_bytes(*dec) == self@,
    {
        &self.0
    }

    /// Packs a decimal into its record layout: scale and sign from the decimal's
    /// own accessors, the magnitude from the last twelve bytes of its serialized
    /// form.
    pub fn build_c_decimal(dec: Decimal) -> (c: DecimalRecord)
        ensures
            c == pack_spec(decimal_bytes(dec)),
            decimal_bytes(dec).len() == 16,
            c.scale <= MAX_SCALE,
            c.reserved == 0,
            c.sign == 0 || c.sign == DECIMAL_NEG,
    {
        let wide_scale: u32 = decimal_scale(&dec);
        let scale: u8 = wide_scale as u8;
        let sign: u8 = if decimal_is_sign_positive(&dec) {
            0
        } else {
            DECIMAL_NEG
        };
        let serial: [u8; 16] = decimal_serialize(&dec);
        proof {
            lemma_shift_is_scale(serial[4]);
            lemma_shift_is_scale(serial[5]);
            lemma_shift_is_scale(serial[6]);
            lemma_shift_is_scale(serial[7]);
            lemma_shift_is_scale(serial[8]);
            lemma_shift_is_scale(serial[9]);
            lemma_shift_is_scale(serial[10]);
            lemma_shift_is_scale(serial[11]);
            lemma_shift_is_scale(serial[12]);
            lemma_shift_is_scale(serial[13]);
            lemma_shift_is_scale(serial[14]);
            lemma_shift_is_scale(serial[15]);
        }
        let lo: u64 = (serial[4] as u64) + ((serial[5] as u64) << 8) + ((serial[6] as u64) << 16)
            + ((serial[7] as u64) << 24) + ((serial[8] as u64) << 32) + ((serial[9] as u64) << 40)
            + ((serial[10] as u64) << 48) + ((serial[11] as u64) << 56);
        let hi: u32 = (serial[12] as u32) + ((serial[13] as u32) << 8) + ((serial[14] as u32)
            << 16) + ((serial[15] as u32) << 24);
        DecimalRecord { reserved: 0, scale, sign, hi32: hi, lo64: lo }
    }

    /// Unpacks a decimal record: the low part is split into two 32-bit words, the
    /// sign is negative only for the sentinel `DECIMAL_NEG`.
    pub fn build_rust_decimal(dec: DecimalRecord) -> (d: Decimal)
        requires
            dec.scale <= MAX_SCALE,
        ensures
            decimal_bytes(d) == unpack_spec(dec),
    {
        let sign = dec.sign == DECIMAL_NEG;
        proof {
            lemma_split_low64(dec.lo64);
        }
        let lo: u32 = (dec.lo64 & 0xFFFF_FFFF) as u32;
        let mid: u32 = ((dec.lo64 >> 32) & 0xFFFF_FFFF) as u32;
        decimal_from_parts(lo, mid, dec.hi32, sign, dec.scale as u32)
    }

    /// Unpacks a record whose scale is in range.
    pub fn from_record(dec: DecimalRecord) -> (w: DecWrapper)
        requires
            dec.scale <= MAX_SCALE,
        ensures
            w@ == unpack_spec(dec),
    {
        DecWrapper(DecWrapper::build_rust_decimal(dec))
    }
}

impl TryFrom<DecimalRecord> for DecWrapper {
    type Error = FromVariantError;

    /// Unpacks a record, or reports a scale above 28.
    fn try_from(dec: DecimalRecord) -> (r: Result<DecWrapper, FromVariantError>)
        ensures
            dec.scale <= MAX_SCALE ==> r is Ok && r->Ok_0@ == unpack_spec(dec),
            dec.scale > MAX_SCALE ==> r == Err::<DecWrapper, FromVariantError>(
                FromVariantError::DecimalScale,
            ),
    {
        if dec.scale <= MAX_SCALE {
            Ok(DecWrapper::from_record(dec))
        } else {
            Err(FromVariantError::DecimalScale)
        }
    }
}

impl TryFromSpecImpl<DecimalRecord> for DecWrapper {
    open spec fn obeys_try_from_spec() -> bool {
        false
    }

    closed spec fn try_from_spec(dec: DecimalRecord) -> Result<DecWrapper, FromVariantError> {
        arbitrary()
    }
}

impl<'a> TryFrom<&'a DecimalRecord> for DecWrapper {
    type Error = FromVariantError;

    /// Unpacks a record, or reports a scale above 28.
    fn try_from(dec: &DecimalRecord) -> (r: Result<DecWrapper, FromVariantError>)
        ensures
            dec.scale <= MAX_SCALE ==> r is Ok && r->Ok_0@ == unpack_spec(*dec),
            dec.scale > MAX_SCALE ==> r == Err::<DecWrapper, FromVariantError>(
                FromVariantError::DecimalScale,
            ),
    {
        if dec.scale <= MAX_SCALE {
            Ok(DecWrapper::from_record(*dec))
        } else {
            Err(FromVariantError::DecimalScale)
        }
    }
}

impl<'a> TryFromSpecImpl<&'a DecimalRecord> for DecWrapper {
    open spec fn obeys_try_from_spec() -> bool {
        false
    }

    closed spec fn try_from_spec(dec: &DecimalRecord) -> Result<DecWrapper, FromVariantError> {
        arbitrary()
    }
}

impl<'a> TryFrom<&'a mut DecimalRecord> for DecWrapper {
    type Error = FromVariantError;

    /// Unpacks a record, or reports a scale above 28.
    fn try_from(dec: &mut DecimalRecord) -> (r: Result<DecWrapper, FromVariantError>)
        ensures
            old(dec).scale <= MAX_SCALE ==> r is Ok && r->Ok_0@ == unpack_spec(*old(dec)),
            old(dec).scale > MAX_SCALE ==> r == Err::<DecWrapper, FromVariantError>(
                FromVariantError::DecimalScale,
            ),
            *final(dec) == *old(dec),
    {
        if dec.scale <= MAX_SCALE {
            Ok(DecWrapper::from_record(*dec))
        } else {
            Err(FromVariantError::DecimalScale)
        }
    }
}

impl<'a> TryFromSpecImpl<&'a mut DecimalRecord> for DecWrapper {
    open spec fn obeys_try_from_spec() -> bool {
        false
    }

    closed spec fn try_from_spec(dec: &mut DecimalRecord) -> Result<DecWrapper, FromVariantError> {
        arbitrary()
    }
}

impl From<DecWrapper> for DecimalRecord {
    /// Packs the decimal into its record layout.
    fn from(d: DecWrapper) -> (r: DecimalRecord)
        ensures
            r == pack_spec(d@),
            d@.len() == 16,
            r.scale <= MAX_SCALE,
            r.reserved == 0,
    {
        DecWrapper::build_c_decimal(d.0)
    }
}

impl FromSpecImpl<DecWrapper> for DecimalRecord {
    open spec fn obeys_from_spec() -> bool {
        true
    }

    closed spec fn from_spec(d: DecWrapper) -> DecimalRecord {
        pack_spec(d@)
    }
}

impl<'a> From<&'a DecWrapper> for DecimalRecord {
    /// Packs the decimal into its record layout.
    fn from(d: &DecWrapper) -> (r: DecimalRecord)
        ensures
            r == pack_spec(d@),
            d@.len() == 16,
            r.scale <= MAX_SCALE,
            r.reserved == 0,
    {
        DecWrapper::build_c_decimal(d.0)
    }
}

impl<'a> FromSpecImpl<&'a DecWrapper> for DecimalRecord {
    open spec fn obeys_from_spec() -> bool {
        true
    }

    closed spec fn from_spec(d: &DecWrapper) -> DecimalRecord {
        pack_spec(d@)
    }
}

impl<'a> From<&'a mut DecWrapper> for DecimalRecord {
    /// Packs the decimal into its record layout.
    fn from(d: &mut DecWrapper) -> (r: DecimalRecord)
        ensures
            r == pack_spec(old(d)@),
            old(d)@.len() == 16,
            r.scale <= MAX_SCALE,
            r.reserved == 0,
            *final(d) == *old(d),
    {
        DecWrapper::build_c_decimal(d.0)
    }
}

impl<'a> FromSpecImpl<&'a mut DecWrapper> for DecimalRecord {
    open spec fn obeys_from_spec() -> bool {
        true
    }

    closed spec fn from_spec(d: &mut DecWrapper) -> DecimalRecord {
        pack_spec(d@)
    }
}

impl From<Decimal> for DecWrapper {
    /// Wraps the decimal.
    fn from(dec: Decimal) -> (r: DecWrapper)
        ensures
            r@ == decimal_bytes(dec),
    {
        DecWrapper(dec)
    }
}

impl FromSpecImpl<Decimal> for DecWrapper {
    open spec fn obeys_from_spec() -> bool {
        true
    }

    closed spec fn from_spec(dec: Decimal) -> DecWrapper {
        DecWrapper(dec)
    }
}

impl<'a> From<&'a Decimal> for DecWrapper {
    /// Wraps the decimal.
    fn from(dec: &Decimal) -> (r: DecWrapper)
        ensures
            r@ == decimal_bytes(*dec),
    {
        DecWrapper(*dec)
    }
}

impl<'a> FromSpecImpl<&'a Decimal> for DecWrapper {
    open spec fn obeys_from_spec() -> bool {
        true
    }

    closed spec fn from_spec(dec: &Decimal) -> DecWrapper {
        DecWrapper(*dec)
    }
}

impl<'a> From<&'a mut Decimal> for DecWrapper {
    /// Wraps the decimal.
    fn from(dec: &mut Decimal) -> (r: DecWrapper)
        ensures
            r@ == decimal_bytes(*old(dec)),
            *final(dec) == *old(dec),
    {
        DecWrapper(*dec)
    }
}

impl<'a> FromSpecImpl<&'a mut Decimal> for DecWrapper {
    open spec fn obeys_from_spec() -> bool {
        true
    }

    closed spec fn from_spec(dec: &mut Decimal) -> DecWrapper {
        DecWrapper(*dec)
    }
}

impl From<DecWrapper> for Decimal {
    /// Gives the wrapped decimal.
    fn from(dw: DecWrapper) -> (r: Decimal)
        ensures
            decimal_bytes(r) == dw@,
    {
        dw.0
    }
}

impl FromSpecImpl<DecWrapper> for Decimal {
    open spec fn obeys_from_spec() -> bool {
        true
    }

    closed spec fn from_spec(dw: DecWrapper) -> Decimal {
        dw.0
    }
}

impl<'a> From<&'a DecWrapper> for Decimal {
    /// Gives the wrapped decimal.
    fn from(dw: &DecWrapper) -> (r: Decimal)
        ensures
            decimal_bytes(r) == dw@,
    {
        dw.0
    }
}

impl<'a> FromSpecImpl<&'a DecWrapper> for Decimal {
    open spec fn obeys_from_spec() -> bool {
        true
    }

    closed spec fn from_spec(dw: &DecWrapper) -> Decimal {
        dw.0
    }
}

impl<'a> From<&'a mut DecWrapper> for Decimal {
    /// Gives the wrapped decimal.
    fn from(dw: &mut DecWrapper) -> (r: Decimal)
        ensures
            decimal_bytes(r) == old(dw)@,
            *final(dw) == *old(dw),
    {
        dw.0
    }
}

impl<'a> FromSpecImpl<&'a mut DecWrapper> for Decimal {
    open spec fn obeys_from_spec() -> bool {
        true
    }

    closed spec fn from_spec(dw: &mut DecWrapper) -> Decimal {
        dw.0
    }
}

/// A two-state boolean.
#[derive(Clone, Copy, Debug, PartialEq, Eq, Structural, Hash, PartialOrd, Ord)]
pub struct VariantBool(pub bool);

impl From<VariantBool> for i16 {
    /// The code of the truth value: all bits set for true, zero for false.
    fn from(vb: VariantBool) -> (r: i16) {
        if vb.0 {
            VARIANT_TRUE
        } else {
            0
        }
    }
}

impl FromSpecImpl<VariantBool> for i16 {
    open spec fn obeys_from_spec() -> bool {
        true
    }

    open spec fn from_spec(vb: VariantBool) -> i16 {
        if vb.0 {
            VARIANT_TRUE
        } else {
            0
        }
    }
}

impl<'a> From<&'a VariantBool> for i16 {
    /// The code of the truth value: all bits set for true, zero for false.
    fn from(vb: &VariantBool) -> (r: i16) {
        if vb.0 {
            VARIANT_TRUE
        } else {
            0
        }
    }
}

impl<'a> FromSpecImpl<&'a VariantBool> for i16 {
    open spec fn obeys_from_spec() -> bool {
        true
    }

    open spec fn from_spec(vb: &VariantBool) -> i16 {
        if vb.0 {
            VARIANT_TRUE
        } else {
            0
        }
    }
}

impl<'a> From<&'a mut VariantBool> for i16 {
    /// The code of the truth value: all bits set for true, zero for false.
    fn from(vb: &mut VariantBool) -> (r: i16)
        ensures
            *final(vb) == *old(vb),
    {
        if vb.0 {
            VARIANT_TRUE
        } else {
            0
        }
    }
}

impl<'a> FromSpecImpl<&'a mut VariantBool> for i16 {
    open spec fn obeys_from_spec() -> bool {
        true
    }

    open spec fn from_spec(vb: &mut VariantBool) -> i16 {
        if vb.0 {
            VARIANT_TRUE
        } else {
            0
        }
    }
}

impl From<i16> for VariantBool {
    /// The truth value of a code: true for a negative code, false for any other.
    fn from(vb: i16) -> (r: VariantBool) {
        VariantBool(vb < 0)
    }
}

impl FromSpecImpl<i16> for VariantBool {
    open spec fn obeys_from_spec() -> bool {
        true
    }

    open spec fn from_spec(vb: i16) -> VariantBool {
        VariantBool(vb < 0)
    }
}

impl<'a> From<&'a i16> for VariantBool {
    /// The truth value of a code: true for a negative code, false for any other.
    fn from(vb: &i16) -> (r: VariantBool) {
        VariantBool(*vb < 0)
    }
}

impl<'a> FromSpecImpl<&'a i16> for VariantBool {
    open spec fn obeys_from_spec() -> bool {
        true
    }

    open spec fn from_spec(vb: &i16) -> VariantBool {
        VariantBool(*vb < 0)
    }
}

impl<'a> From<&'a mut i16> for VariantBool {
    /// The truth value of a code: true for a negative code, false for any other.
    fn from(vb: &mut i16) -> (r: VariantBool)
        ensures
            *final(vb) == *old(vb),
    {
        VariantBool(*vb < 0)
    }
}

impl<'a> FromSpecImpl<&'a mut i16> for VariantBool {
    open spec fn obeys_from_spec() -> bool {
        true
    }

    open spec fn from_spec(vb: &mut i16) -> VariantBool {
        VariantBool(*vb < 0)
    }
}

impl From<bool> for VariantBool {
    /// Wraps the truth value.
    fn from(b: bool) -> (r: VariantBool) {
        VariantBool(b)
    }
}

impl FromSpecImpl<bool> for VariantBool {
    open spec fn obeys_from_spec() -> bool {
        true
    }

    open spec fn from_spec(b: bool) -> VariantBool {
        VariantBool(b)
    }
}

impl<'a> From<&'a bool> for VariantBool {
    /// Wraps the truth value.
    fn from(b: &bool) -> (r: VariantBool) {
        VariantBool(*b)
    }
}

impl<'a> FromSpecImpl<&'a bool> for VariantBool {
    open spec fn obeys_from_spec() -> bool {
        true
    }

    open spec fn from_spec(b: &bool) -> VariantBool {
        VariantBool(*b)
    }
}

impl<'a> From<&'a mut bool> for VariantBool {
    /// Wraps the truth value.
    fn from(b: &mut bool) -> (r: VariantBool)
        ensures
            *final(b) == *old(b),
    {
        VariantBool(*b)
    }
}

impl<'a> FromSpecImpl<&'a mut bool> for VariantBool {
    open spec fn obeys_from_spec() -> bool {
        true
    }

    open spec fn from_spec(b: &mut bool) -> VariantBool {
        VariantBool(*b)
    }
}

impl From<VariantBool> for bool {
    /// Gives back the truth value.
    fn from(b: VariantBool) -> (r: bool) {
        b.0
    }
}

impl FromSpecImpl<VariantBool> for bool {
    open spec fn obeys_from_spec() -> bool {
        true
    }

    open spec fn from_spec(b: VariantBool) -> bool {
        b.0
    }
}

impl<'a> From<&'a VariantBool> for bool {
    /// Gives back the truth value.
    fn from(b: &VariantBool) -> (r: bool) {
        b.0
    }
}

impl<'a> FromSpecImpl<&'a VariantBool> for bool {
    open spec fn obeys_from_spec() -> bool {
        true
    }

    open spec fn from_spec(b: &VariantBool) -> bool {
        b.0
    }
}

impl<'a> From<&'a mut VariantBool> for bool {
    /// Gives back the truth value.
    fn from(b: &mut VariantBool) -> (r: bool)
        ensures
            *final(b) == *old(b),
    {
        b.0
    }
}

impl<'a> FromSpecImpl<&'a mut VariantBool> for bool {
    open spec fn obeys_from_spec() -> bool {
        true
    }

    open spec fn from_spec(b: &mut VariantBool) -> bool {
        b.0
    }
}

impl VariantBool {
    /// A borrow of the truth value.
    pub fn as_ref(&self) -> (r: &bool)
        ensures
            *r == self.0,
    {
        &self.0
    }
}

/// The code of `true` has every bit set, the code of `false` is zero, and
/// reading a code back gives `true` exactly for the negative codes.
pub proof fn lemma_variant_bool_codes(b: bool, code: i16)
    ensures
        <i16 as FromSpec<VariantBool>>::from_spec(VariantBool(true)) == VARIANT_TRUE,
        VARIANT_TRUE as u16 == 0xFFFF,
        <i16 as FromSpec<VariantBool>>::from_spec(VariantBool(false)) == 0,
        <VariantBool as FromSpec<i16>>::from_spec(code).0 == (code < 0),
        <VariantBool as FromSpec<i16>>::from_spec(
            <i16 as FromSpec<VariantBool>>::from_spec(VariantBool(b)),
        ) == VariantBool(b),
{
    assert(VARIANT_TRUE as u16 == 0xFFFF) by (bit_vector);
}

/// The protocol's native signed integer, 32 bits wide.
#[derive(Clone, Copy, Debug, PartialEq, Eq, Structural, Hash, PartialOrd, Ord)]
pub struct Int(pub i32);

impl From<i32> for Int {
    /// Wraps the integer.
    fn from(i: i32) -> (r: Int) {
        Int(i)
    }
}

impl FromSpecImpl<i32> for Int {
    open spec fn obeys_from_spec() -> bool {
        true
    }

    open spec fn from_spec(i: i32) -> Int {
        Int(i)
    }
}

impl<'a> From<&'a i32> for Int {
    /// Wraps the integer.
    fn from(i: &i32) -> (r: Int) {
        Int(*i)
    }
}

impl<'a> FromSpecImpl<&'a i32> for Int {
    open spec fn obeys_from_spec() -> bool {
        true
    }

    open spec fn from_spec(i: &i32) -> Int {
        Int(*i)
    }
}

impl<'a> From<&'a mut i32> for Int {
    /// Wraps the integer.
    fn from(i: &mut i32) -> (r: Int)
        ensures
            *final(i) == *old(i),
    {
        Int(*i)
    }
}

impl<'a> FromSpecImpl<&'a mut i32> for Int {
    open spec fn obeys_from_spec() -> bool {
        true
    }

    open spec fn from_spec(i: &mut i32) -> Int {
        Int(*i)
    }
}

impl From<Int> for i32 {
    /// Gives back the integer.
    fn from(o: Int) -> (r: i32) {
        o.0
    }
}

impl FromSpecImpl<Int> for i32 {
    open spec fn obeys_from_spec() -> bool {
        true
    }

    open spec fn from_spec(o: Int) -> i32 {
        o.0
    }
}

impl<'a> From<&'a Int> for i32 {
    /// Gives back the integer.
    fn from(o: &Int) -> (r: i32) {
        o.0
    }
}

impl<'a> FromSpecImpl<&'a Int> for i32 {
    open spec fn obeys_from_spec() -> bool {
        true
    }

    open spec fn from_spec(o: &Int) -> i32 {
        o.0
    }
}

impl<'a> From<&'a mut Int> for i32 {
    /// Gives back the integer.
    fn from(o: &mut Int) -> (r: i32)
        ensures
            *final(o) == *old(o),
    {
        o.0
    }
}

impl<'a> FromSpecImpl<&'a mut Int> for i32 {
    open spec fn obeys_from_spec() -> bool {
        true
    }

    open spec fn from_spec(o: &mut Int) -> i32 {
        o.0
    }
}

impl Int {
    /// A borrow of the integer.
    pub fn as_ref(&self) -> (r: &i32)
        ensures
            *r == self.0,
    {
        &self.0
    }
}

impl TryFrom<i64> for Int {
    type Error = TryFromIntError;

    /// Narrows `value` to the wrapper's width, or reports that it does not fit.
    fn try_from(value: i64) -> (r: Result<Int, TryFromIntError>)
        ensures
            r is Ok <==> i32::MIN <= value <= i32::MAX,
            r matches Ok(w) ==> w.0 == value,
    {
        match i32::try_from(value) {
            Ok(v) => Ok(Int(v)),
            Err(e) => Err(e),
        }
    }
}

impl TryFromSpecImpl<i64> for Int {
    open spec fn obeys_try_from_spec() -> bool {
        false
    }

    open spec fn try_from_spec(value: i64) -> Result<Int, TryFromIntError> {
        if i32::MIN <= value <= i32::MAX {
            Ok(Int(value as i32))
        } else {
            Err(arbitrary())
        }
    }
}

impl TryFrom<i128> for Int {
    type Error = TryFromIntError;

    /// Narrows `value` to the wrapper's width, or reports that it does not fit.
    fn try_from(value: i128) -> (r: Result<Int, TryFromIntError>)
        ensures
            r is Ok <==> i32::MIN <= value <= i32::MAX,
            r matches Ok(w) ==> w.0 == value,
    {
        match i32::try_from(value) {
            Ok(v) => Ok(Int(v)),
            Err(e) => Err(e),
        }
    }
}

impl TryFromSpecImpl<i128> for Int {
    open spec fn obeys_try_from_spec() -> bool {
        false
    }

    open spec fn try_from_spec(value: i128) -> Result<Int, TryFromIntError> {
        if i32::MIN <= value <= i32::MAX {
            Ok(Int(value as i32))
        } else {
            Err(arbitrary())
        }
    }
}

impl TryFrom<i16> for Int {
    type Error = TryFromIntError;

    /// Narrows `value` to the wrapper's width, or reports that it does not fit.
    fn try_from(value: i16) -> (r: Result<Int, TryFromIntError>)
        ensures
            r is Ok <==> i32::MIN <= value <= i32::MAX,
            r matches Ok(w) ==> w.0 == value,
    {
        Ok(Int(value as i32))
    }
}

impl TryFromSpecImpl<i16> for Int {
    open spec fn obeys_try_from_spec() -> bool {
        false
    }

    open spec fn try_from_spec(value: i16) -> Result<Int, TryFromIntError> {
        if i32::MIN <= value <= i32::MAX {
            Ok(Int(value as i32))
        } else {
            Err(arbitrary())
        }
    }
}

impl TryFrom<i8> for Int {
    type Error = TryFromIntError;

    /// Narrows `value` to the wrapper's width, or reports that it does not fit.
    fn try_from(value: i8) -> (r: Result<Int, TryFromIntError>)
        ensures
            r is Ok <==> i32::MIN <= value <= i32::MAX,
            r matches Ok(w) ==> w.0 == value,
    {
        Ok(Int(value as i32))
    }
}

impl TryFromSpecImpl<i8> for Int {
    open spec fn obeys_try_from_spec() -> bool {
        false
    }

    open spec fn try_from_spec(value: i8) -> Result<Int, TryFromIntError> {
        if i32::MIN <= value <= i32::MAX {
            Ok(Int(value as i32))
        } else {
            Err(arbitrary())
        }
    }
}

/// The protocol's native unsigned integer, 32 bits wide.
#[derive(Clone, Copy, Debug, PartialEq, Eq, Structural, Hash, PartialOrd, Ord)]
pub struct UInt(pub u32);

impl From<u32> for UInt {
    /// Wraps the integer.
    fn from(i: u32) -> (r: UInt) {
        UInt(i)
    }
}

impl FromSpecImpl<u32> for UInt {
    open spec fn obeys_from_spec() -> bool {
        true
    }

    open spec fn from_spec(i: u32) -> UInt {
        UInt(i)
    }
}

impl<'a> From<&'a u32> for UInt {
    /// Wraps the integer.
    fn from(i: &u32) -> (r: UInt) {
        UInt(*i)
    }
}

impl<'a> FromSpecImpl<&'a u32> for UInt {
    open spec fn obeys_from_spec() -> bool {
        true
    }

    open spec fn from_spec(i: &u32) -> UInt {
        UInt(*i)
    }
}

impl<'a> From<&'a mut u32> for UInt {
    /// Wraps the integer.
    fn from(i: &mut u32) -> (r: UInt)
        ensures
            *final(i) == *old(i),
    {
        UInt(*i)
    }
}

impl<'a> FromSpecImpl<&'a mut u32> for UInt {
    open spec fn obeys_from_spec() -> bool {
        true
    }

    open spec fn from_spec(i: &mut u32) -> UInt {
        UInt(*i)
    }
}

impl From<UInt> for u32 {
    /// Gives back the integer.
    fn from(o: UInt) -> (r: u32) {
        o.0
    }
}

impl FromSpecImpl<UInt> for u32 {
    open spec fn obeys_from_spec() -> bool {
        true
    }

    open spec fn from_spec(o: UInt) -> u32 {
        o.0
    }
}

impl<'a> From<&'a UInt> for u32 {
    /// Gives back the integer.
    fn from(o: &UInt) -> (r: u32) {
        o.0
    }
}

impl<'a> FromSpecImpl<&'a UInt> for u32 {
    open spec fn obeys_from_spec() -> bool {
        true
    }

    open spec fn from_spec(o: &UInt) -> u32 {
        o.0
    }
}

impl<'a> From<&'a mut UInt> for u32 {
    /// Gives back the integer.
    fn from(o: &mut UInt) -> (r: u32)
        ensures
            *final(o) == *old(o),
    {
        o.0
    }
}

impl<'a> FromSpecImpl<&'a mut UInt> for u32 {
    open spec fn obeys_from_spec() -> bool {
        true
    }

    open spec fn from_spec(o: &mut UInt) -> u32 {
        o.0
    }
}

impl UInt {
    /// A borrow of the integer.
    pub fn as_ref(&self) -> (r: &u32)
        ensures
            *r == self.0,
    {
        &self.0
    }
}

impl TryFrom<u64> for UInt {
    type Error = TryFromIntError;

    /// Narrows `value` to the wrapper's width, or reports that it does not fit.
    fn try_from(value: u64) -> (r: Result<UInt, TryFromIntError>)
        ensures
            r is Ok <==> u32::MIN <= value <= u32::MAX,
            r matches Ok(w) ==> w.0 == value,
    {
        match u32::try_from(value) {
            Ok(v) => Ok(UInt(v)),
            Err(e) => Err(e),
        }
    }
}

impl TryFromSpecImpl<u64> for UInt {
    open spec fn obeys_try_from_spec() -> bool {
        false
    }

    open spec fn try_from_spec(value: u64) -> Result<UInt, TryFromIntError> {
        if u32::MIN <= value <= u32::MAX {
            Ok(UInt(value as u32))
        } else {
            Err(arbitrary())
        }
    }
}

impl TryFrom<u128> for UInt {
    type Error = TryFromIntError;

    /// Narrows `value` to the wrapper's width, or reports that it does not fit.
    fn try_from(value: u128) -> (r: Result<UInt, TryFromIntError>)
        ensures
            r is Ok <==> u32::MIN <= value <= u32::MAX,
            r matches Ok(w) ==> w.0 == value,
    {
        match u32::try_from(value) {
            Ok(v) => Ok(UInt(v)),
            Err(e) => Err(e),
        }
    }
}

impl TryFromSpecImpl<u128> for UInt {
    open spec fn obeys_try_from_spec() -> bool {
        false
    }

    open spec fn try_from_spec(value: u128) -> Result<UInt, TryFromIntError> {
        if u32::MIN <= value <= u32::MAX {
            Ok(UInt(value as u32))
        } else {
            Err(arbitrary())
        }
    }
}

impl TryFrom<u16> for UInt {
    type Error = TryFromIntError;

    /// Narrows `value` to the wrapper's width, or reports that it does not fit.
    fn try_from(value: u16) -> (r: Result<UInt, TryFromIntError>)
        ensures
            r is Ok <==> u32::MIN <= value <= u32::MAX,
            r matches Ok(w) ==> w.0 == value,
    {
        Ok(UInt(value as u32))
    }
}

impl TryFromSpecImpl<u16> for UInt {
    open spec fn obeys_try_from_spec() -> bool {
        false
    }

    open spec fn try_from_spec(value: u16) -> Result<UInt, TryFromIntError> {
        if u32::MIN <= value <= u32::MAX {
            Ok(UInt(value as u32))
        } else {
            Err(arbitrary())
        }
    }
}

impl TryFrom<u8> for UInt {
    type Error = TryFromIntError;

    /// Narrows `value` to the wrapper's width, or reports that it does not fit.
    fn try_from(value: u8) -> (r: Result<UInt, TryFromIntError>)
        ensures
            r is Ok <==> u32::MIN <= value <= u32::MAX,
            r matches Ok(w) ==> w.0 == value,
    {
        Ok(UInt(value as u32))
    }
}

impl TryFromSpecImpl<u8> for UInt {
    open spec fn obeys_try_from_spec() -> bool {
        false
    }

    open spec fn try_from_spec(value: u8) -> Result<UInt, TryFromIntError> {
        if u32::MIN <= value <= u32::MAX {
            Ok(UInt(value as u32))
        } else {
            Err(arbitrary())
        }
    }
}

/// A status code.
#[derive(Clone, Copy, Debug, PartialEq, Eq, Structural, Hash, PartialOrd, Ord)]
pub struct SCode(pub i32);

impl From<i32> for SCode {
    /// Wraps the status code.
    fn from(i: i32) -> (r: SCode) {
        SCode(i)
    }
}

impl FromSpecImpl<i32> for SCode {
    open spec fn obeys_from_spec() -> bool {
        true
    }

    open spec fn from_spec(i: i32) -> SCode {
        SCode(i)
    }
}

impl<'a> From<&'a i32> for SCode {
    /// Wraps the status code.
    fn from(i: &i32) -> (r: SCode) {
        SCode(*i)
    }
}

impl<'a> FromSpecImpl<&'a i32> for SCode {
    open spec fn obeys_from_spec() -> bool {
        true
    }

    open spec fn from_spec(i: &i32) -> SCode {
        SCode(*i)
    }
}

impl<'a> From<&'a mut i32> for SCode {
    /// Wraps the status code.
    fn from(i: &mut i32) -> (r: SCode)
        ensures
            *final(i) == *old(i),
    {
        SCode(*i)
    }
}

impl<'a> FromSpecImpl<&'a mut i32> for SCode {
    open spec fn obeys_from_spec() -> bool {
        true
    }

    open spec fn from_spec(i: &mut i32) -> SCode {
        SCode(*i)
    }
}

impl From<SCode> for i32 {
    /// Gives back the status code.
    fn from(o: SCode) -> (r: i32) {
        o.0
    }
}

impl FromSpecImpl<SCode> for i32 {
    open spec fn obeys_from_spec() -> bool {
        true
    }

    open spec fn from_spec(o: SCode) -> i32 {
        o.0
    }
}

impl<'a> From<&'a SCode> for i32 {
    /// Gives back the status code.
    fn from(o: &SCode) -> (r: i32) {
        o.0
    }
}

impl<'a> FromSpecImpl<&'a SCode> for i32 {
    open spec fn obeys_from_spec() -> bool {
        true
    }

    open spec fn from_spec(o: &SCode) -> i32 {
        o.0
    }
}

impl<'a> From<&'a mut SCode> for i32 {
    /// Gives back the status code.
    fn from(o: &mut SCode) -> (r: i32)
        ensures
            *final(o) == *old(o),
    {
        o.0
    }
}

impl<'a> FromSpecImpl<&'a mut SCode> for i32 {
    open spec fn obeys_from_spec() -> bool {
        true
    }

    open spec fn from_spec(o: &mut SCode) -> i32 {
        o.0
    }
}

impl SCode {
    /// A borrow of the status code.
    pub fn as_ref(&self) -> (r: &i32)
        ensures
            *r == self.0,
    {
        &self.0
    }
}

} // verus!

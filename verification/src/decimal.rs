//! The 96-bit decimal sub-format: scale and sign in a byte each, the unscaled
//! magnitude split into a low 64-bit and a high 32-bit part.

use rust_decimal::Decimal;
use vstd::prelude::*;

verus! {

/// `rust_decimal::Decimal`, a value that Verus carries without looking inside.
#[verifier::external_type_specification]
#[verifier::external_body]
pub struct ExDecimal(Decimal);

/// The sixteen bytes that `Decimal::serialize` gives for a decimal: four bytes
/// of flags (the scale in the third, the sign in the top bit of the fourth),
/// then the low, middle and high 32-bit words of the magnitude, each
/// little-endian.
pub uninterp spec fn decimal_bytes(d: Decimal) -> Seq<u8>;

/// The sign byte of a negative decimal record.
pub const DECIMAL_NEG: u8 = 0x80;

/// The largest scale a decimal can have.
pub const MAX_SCALE: u8 = 28;

/// The fixed layout of a decimal inside a variant record.
#[derive(Clone, Copy, Debug, PartialEq, Eq, Structural, Hash)]
pub struct DecimalRecord {
    /// Storage shared with the discriminant tag of the enclosing record.
    pub reserved: u16,
    /// The power of ten that divides the magnitude, 0 to 28.
    pub scale: u8,
    /// 0 for a non-negative value, `DECIMAL_NEG` for a negative one.
    pub sign: u8,
    /// The high 32 bits of the 96-bit magnitude.
    pub hi32: u32,
    /// The low 64 bits of the 96-bit magnitude.
    pub lo64: u64,
}

/// The byte at position `i` of `x` written little-endian.
pub open spec fn le_byte(x: int, i: nat) -> u8 {
    ((x / pow256(i)) % 256) as u8
}

/// 256 to the power `i`, for the eight positions of a 64-bit word.
pub open spec fn pow256(i: nat) -> int {
    if i == 0 {
        1
    } else if i == 1 {
        0x100
    } else if i == 2 {
        0x1_0000
    } else if i == 3 {
        0x100_0000
    } else if i == 4 {
        0x1_0000_0000
    } else if i == 5 {
        0x100_0000_0000
    } else if i == 6 {
        0x1_0000_0000_0000
    } else {
        0x100_0000_0000_0000
    }
}

/// The number that four bytes spell little-endian.
pub open spec fn le_u32(b0: u8, b1: u8, b2: u8, b3: u8) -> int {
    b0 + 0x100 * b1 + 0x1_0000 * b2 + 0x100_0000 * b3
}

/// The number that the eight bytes of `s` from `at` on spell little-endian.
pub open spec fn le_u64(s: Seq<u8>, at: int) -> int {
    le_u32(s[at], s[at + 1], s[at + 2], s[at + 3]) + 0x1_0000_0000 * le_u32(
        s[at + 4],
        s[at + 5],
        s[at + 6],
        s[at + 7],
    )
}

/// The serialized form of the decimal with magnitude words `lo`, `mid`, `hi`,
/// the given sign and the given scale.
pub open spec fn parts_bytes(lo: u32, mid: u32, hi: u32, negative: bool, scale: u32) -> Seq<u8> {
    seq![
        0u8,
        0u8,
        scale as u8,
        if negative {
            DECIMAL_NEG
        } else {
            0u8
        },
        le_byte(lo as int, 0),
        le_byte(lo as int, 1),
        le_byte(lo as int, 2),
        le_byte(lo as int, 3),
        le_byte(mid as int, 0),
        le_byte(mid as int, 1),
        le_byte(mid as int, 2),
        le_byte(mid as int, 3),
        le_byte(hi as int, 0),
        le_byte(hi as int, 1),
        le_byte(hi as int, 2),
        le_byte(hi as int, 3),
    ]
}

/// What packing makes of a decimal whose serialized form is `bytes`.
pub open spec fn pack_spec(bytes: Seq<u8>) -> DecimalRecord {
    DecimalRecord {
        reserved: 0,
        scale: bytes[2],
        sign: if bytes[3] < 0x80 {
            0
        } else {
            DECIMAL_NEG
        },
        hi32: le_u32(bytes[12], bytes[13], bytes[14], bytes[15]) as u32,
        lo64: le_u64(bytes, 4) as u64,
    }
}

/// The serialized form of the decimal that unpacking makes of `dec`. A zero
/// magnitude is never negative.
pub open spec fn unpack_spec(dec: DecimalRecord) -> Seq<u8> {
    let lo = (dec.lo64 % 0x1_0000_0000) as u32;
    let mid = (dec.lo64 / 0x1_0000_0000) as u32;
    parts_bytes(
        lo,
        mid,
        dec.hi32,
        dec.sign == DECIMAL_NEG && !(dec.lo64 == 0 && dec.hi32 == 0),
        dec.scale as u32,
    )
}

/// Calls `Decimal::scale`: the scale is the third flag byte, and by the
/// documentation of `Decimal` it lies between 0 and 28.
#[verifier::external_body]
pub(crate) fn decimal_scale(dec: &Decimal) -> (r: u32)
    ensures
        r == decimal_bytes(*dec)[2],
        r <= MAX_SCALE,
{
    dec.scale()
}

/// Calls `Decimal::is_sign_positive`: true when the top bit of the fourth flag
/// byte is clear.
#[verifier::external_body]
pub(crate) fn decimal_is_sign_positive(dec: &Decimal) -> (r: bool)
    ensures
        r == (decimal_bytes(*dec)[3] < 0x80),
{
    dec.is_sign_positive()
}

/// Calls `Decimal::serialize`: the result is the serialized form itself.
#[verifier::external_body]
pub(crate) fn decimal_serialize(dec: &Decimal) -> (r: [u8; 16])
    ensures
        r@ == decimal_bytes(*dec),
{
    dec.serialize()
}

/// Calls `Decimal::from_parts`, which panics on a scale above 28: the result
/// holds the three words and the scale as given, and the sign as given unless
/// the magnitude is zero, which is stored as non-negative.
#[verifier::external_body]
pub(crate) fn decimal_from_parts(
    lo: u32,
    mid: u32,
    hi: u32,
    negative: bool,
    scale: u32,
) -> (r: Decimal)
    requires
        scale <= MAX_SCALE,
    ensures
        decimal_bytes(r) == parts_bytes(
            lo,
            mid,
            hi,
            negative && !(lo == 0 && mid == 0 && hi == 0),
            scale,
        ),
{
    Decimal::from_parts(lo, mid, hi, negative, scale)
}

pub(crate) proof fn lemma_shift_is_scale(b: u8)
    by (bit_vector)
    ensures
        (b as u64) << 8 == (b as u64) * 0x100,
        (b as u64) << 16 == (b as u64) * 0x1_0000,
        (b as u64) << 24 == (b as u64) * 0x100_0000,
        (b as u64) << 32 == (b as u64) * 0x1_0000_0000,
        (b as u64) << 40 == (b as u64) * 0x100_0000_0000,
        (b as u64) << 48 == (b as u64) * 0x1_0000_0000_0000,
        (b as u64) << 56 == (b as u64) * 0x100_0000_0000_0000,
        (b as u32) << 8 == (b as u32) * 0x100,
        (b as u32) << 16 == (b as u32) * 0x1_0000,
        (b as u32) << 24 == (b as u32) * 0x100_0000,
{
}

pub(crate) proof fn lemma_split_low64(x: u64)
    by (bit_vector)
    ensures
        x & 0xFFFF_FFFF == x % 0x1_0000_0000,
        (x >> 32) & 0xFFFF_FFFF == x / 0x1_0000_0000,
        x / 0x1_0000_0000 <= 0xFFFF_FFFF,
{
}

/// Whether two serialized forms stand for the same decimal: the same scale,
/// the same magnitude, and the same sign unless the magnitude is zero.
pub open spec fn same_decimal(a: Seq<u8>, b: Seq<u8>) -> bool {
    &&& a[2] == b[2]
    &&& forall|i: int| 4 <= i < 16 ==> a[i] == b[i]
    &&& ((forall|i: int| 4 <= i < 16 ==> a[i] == 0) || (a[3] < 0x80) == (b[3] < 0x80))
}

proof fn lemma_u32_digits(x: u32)
    by (bit_vector)
    ensures
        x == (x % 0x100) + 0x100 * ((x / 0x100) % 0x100) + 0x1_0000 * ((x / 0x1_0000) % 0x100)
            + 0x100_0000 * ((x / 0x100_0000) % 0x100),
        (x / 0x100_0000) % 0x100 == x / 0x100_0000,
{
}

proof fn lemma_digits_u32(b0: u8, b1: u8, b2: u8, b3: u8)
    by (bit_vector)
    ensures
        ({
            let x = (b0 as u32) + 0x100 * (b1 as u32) + 0x1_0000 * (b2 as u32) + 0x100_0000 * (
            b3 as u32);
            &&& x <= 0xFFFF_FFFF
            &&& x % 0x100 == b0
            &&& (x / 0x100) % 0x100 == b1
            &&& (x / 0x1_0000) % 0x100 == b2
            &&& (x / 0x100_0000) % 0x100 == b3
        }),
{
}

/// The four little-endian bytes of a 32-bit word spell that word.
pub proof fn lemma_le_bytes_of_u32(x: u32)
    ensures
        le_u32(
            le_byte(x as int, 0),
            le_byte(x as int, 1),
            le_byte(x as int, 2),
            le_byte(x as int, 3),
        ) == x,
        x == 0 <==> le_byte(x as int, 0) == 0 && le_byte(x as int, 1) == 0 && le_byte(x as int, 2)
            == 0 && le_byte(x as int, 3) == 0,
{
    lemma_u32_digits(x);
}

/// Four bytes are the little-endian bytes of the word they spell.
pub proof fn lemma_le_u32_of_bytes(b0: u8, b1: u8, b2: u8, b3: u8)
    ensures
        0 <= le_u32(b0, b1, b2, b3) <= u32::MAX,
        le_byte(le_u32(b0, b1, b2, b3), 0) == b0,
        le_byte(le_u32(b0, b1, b2, b3), 1) == b1,
        le_byte(le_u32(b0, b1, b2, b3), 2) == b2,
        le_byte(le_u32(b0, b1, b2, b3), 3) == b3,
{
    lemma_digits_u32(b0, b1, b2, b3);
}

/// Unpacking a record, packing the decimal and unpacking again gives the
/// decimal of the first unpacking.
pub proof fn lemma_unpack_pack_unpack(fields: DecimalRecord)
    requires
        fields.scale <= MAX_SCALE,
    ensures
        unpack_spec(pack_spec(unpack_spec(fields))) == unpack_spec(fields),
        pack_spec(unpack_spec(fields)).scale == fields.scale,
        pack_spec(unpack_spec(fields)).hi32 == fields.hi32,
        pack_spec(unpack_spec(fields)).lo64 == fields.lo64,
{
    let lo = (fields.lo64 % 0x1_0000_0000) as u32;
    let mid = (fields.lo64 / 0x1_0000_0000) as u32;
    lemma_le_bytes_of_u32(lo);
    lemma_le_bytes_of_u32(mid);
    lemma_le_bytes_of_u32(fields.hi32);
    let packed = pack_spec(unpack_spec(fields));
    assert(packed.hi32 == fields.hi32);
    assert(packed.lo64 == fields.lo64);
    assert(unpack_spec(packed) =~= unpack_spec(fields));
}

proof fn lemma_join_split(lo: u32, mid: u32)
    by (bit_vector)
    ensures
        (lo as u64) + 0x1_0000_0000 * (mid as u64) <= 0xFFFF_FFFF_FFFF_FFFF,
        ((lo as u64) + 0x1_0000_0000 * (mid as u64)) % 0x1_0000_0000 == lo,
        ((lo as u64) + 0x1_0000_0000 * (mid as u64)) / 0x1_0000_0000 == mid,
{
}

/// Packing a decimal and unpacking the record gives the same decimal.
pub proof fn lemma_pack_unpack(bytes: Seq<u8>)
    requires
        bytes.len() == 16,
    ensures
        same_decimal(unpack_spec(pack_spec(bytes)), bytes),
{
    lemma_le_u32_of_bytes(bytes[4], bytes[5], bytes[6], bytes[7]);
    lemma_le_u32_of_bytes(bytes[8], bytes[9], bytes[10], bytes[11]);
    lemma_le_u32_of_bytes(bytes[12], bytes[13], bytes[14], bytes[15]);
    let packed = pack_spec(bytes);
    let lo = le_u32(bytes[4], bytes[5], bytes[6], bytes[7]) as u32;
    let mid = le_u32(bytes[8], bytes[9], bytes[10], bytes[11]) as u32;
    let hi = le_u32(bytes[12], bytes[13], bytes[14], bytes[15]) as u32;
    lemma_join_split(lo, mid);
    assert(packed.lo64 == lo + 0x1_0000_0000 * mid);
    assert((packed.lo64 % 0x1_0000_0000) as u32 == lo);
    assert((packed.lo64 / 0x1_0000_0000) as u32 == mid);
    assert(packed.hi32 == hi);
    let negative = packed.sign == DECIMAL_NEG && !(packed.lo64 == 0 && packed.hi32 == 0);
    let back = parts_bytes(lo, mid, hi, negative, packed.scale as u32);
    assert(unpack_spec(packed) == back);
    assert(back[2] == bytes[2]);
    assert forall|i: int| 4 <= i < 16 implies back[i] == bytes[i] by {
    }
    if !(forall|i: int| 4 <= i < 16 ==> back[i] == 0) {
        assert(!(lo == 0 && mid == 0 && hi == 0));
        assert(!(packed.lo64 == 0 && packed.hi32 == 0));
        assert((back[3] < 0x80) == (bytes[3] < 0x80));
    }
}

} // verus!

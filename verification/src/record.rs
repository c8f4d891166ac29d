//! The variant record: a discriminant tag and a union of which exactly one
//! member is active. The union is a closed sum type here, so the active
//! member is always known.

use crate::bstr::Bstr;
use crate::decimal::DecimalRecord;
use crate::types::Cy;
use vstd::prelude::*;

verus! {

/// No value.
pub const VT_EMPTY: u32 = 0;

/// The null value.
pub const VT_NULL: u32 = 1;

/// A 16-bit signed integer.
pub const VT_I2: u32 = 2;

/// A 32-bit signed integer.
pub const VT_I4: u32 = 3;

/// A 32-bit float.
pub const VT_R4: u32 = 4;

/// A 64-bit float.
pub const VT_R8: u32 = 5;

/// A currency amount.
pub const VT_CY: u32 = 6;

/// A day-count date.
pub const VT_DATE: u32 = 7;

/// A wide string.
pub const VT_BSTR: u32 = 8;

/// An object of the dispatch interface.
pub const VT_DISPATCH: u32 = 9;

/// A status code.
pub const VT_ERROR: u32 = 10;

/// A two-state boolean.
pub const VT_BOOL: u32 = 11;

/// A nested variant record.
pub const VT_VARIANT: u32 = 12;

/// An object of the base interface.
pub const VT_UNKNOWN: u32 = 13;

/// A 96-bit decimal.
pub const VT_DECIMAL: u32 = 14;

/// An 8-bit signed integer.
pub const VT_I1: u32 = 16;

/// An 8-bit unsigned integer.
pub const VT_UI1: u32 = 17;

/// A 16-bit unsigned integer.
pub const VT_UI2: u32 = 18;

/// A 32-bit unsigned integer.
pub const VT_UI4: u32 = 19;

/// A 64-bit signed integer.
pub const VT_I8: u32 = 20;

/// A 64-bit unsigned integer.
pub const VT_UI8: u32 = 21;

/// A native signed integer.
pub const VT_INT: u32 = 22;

/// A native unsigned integer.
pub const VT_UINT: u32 = 23;

/// Modifier bit: the payload is a pointer to an array descriptor.
pub const VT_ARRAY: u32 = 0x2000;

/// Modifier bit: the payload is a pointer to a value of the base kind.
pub const VT_BYREF: u32 = 0x4000;

/// A pointer to what `VT_UI1` names.
pub const VT_PUI1: u32 = 0x4011;

/// A pointer to what `VT_I2` names.
pub const VT_PI2: u32 = 0x4002;

/// A pointer to what `VT_I4` names.
pub const VT_PI4: u32 = 0x4003;

/// A pointer to what `VT_I8` names.
pub const VT_PI8: u32 = 0x4014;

/// A pointer to what `VT_UI8` names.
pub const VT_PUI8: u32 = 0x4015;

/// A pointer to what `VT_R4` names.
pub const VT_PR4: u32 = 0x4004;

/// A pointer to what `VT_R8` names.
pub const VT_PR8: u32 = 0x4005;

/// A pointer to what `VT_BOOL` names.
pub const VT_PBOOL: u32 = 0x400B;

/// A pointer to what `VT_ERROR` names.
pub const VT_PERROR: u32 = 0x400A;

/// A pointer to what `VT_CY` names.
pub const VT_PCY: u32 = 0x4006;

/// A pointer to what `VT_DATE` names.
pub const VT_PDATE: u32 = 0x4007;

/// A pointer to what `VT_BSTR` names.
pub const VT_PBSTR: u32 = 0x4008;

/// A pointer to what `VT_UNKNOWN` names.
pub const VT_PUNKNOWN: u32 = 0x400D;

/// A pointer to what `VT_DISPATCH` names.
pub const VT_PDISPATCH: u32 = 0x4009;

/// A pointer to what `VT_ARRAY` names.
pub const VT_PARRAY: u32 = 0x6000;

/// A pointer to what `VT_DECIMAL` names.
pub const VT_PDECIMAL: u32 = 0x400E;

/// A pointer to what `VT_I1` names.
pub const VT_PI1: u32 = 0x4010;

/// A pointer to what `VT_UI2` names.
pub const VT_PUI2: u32 = 0x4012;

/// A pointer to what `VT_UI4` names.
pub const VT_PUI4: u32 = 0x4013;

/// A pointer to what `VT_INT` names.
pub const VT_PINT: u32 = 0x4016;

/// A pointer to what `VT_UINT` names.
pub const VT_PUINT: u32 = 0x4017;
/// The secondary half of a record: every payload but the decimal.
#[derive(Debug, PartialEq, Eq)]
pub enum Payload {
    /// All bytes zero: no member has been written.
    Zeroed,
    /// A 64-bit signed integer.
    LlVal(i64),
    /// A 32-bit signed integer.
    LVal(i32),
    /// An 8-bit unsigned integer.
    BVal(u8),
    /// A 16-bit signed integer.
    IVal(i16),
    /// A 32-bit float, by its bits.
    FltVal(u32),
    /// A 64-bit float, by its bits.
    DblVal(u64),
    /// A two-state boolean code.
    BoolVal(i16),
    /// A status code.
    Scode(i32),
    /// A currency amount.
    CyVal(Cy),
    /// A day-count date, by the bits of its double.
    Date(u64),
    /// A wide-string handle.
    BstrVal(Bstr),
    /// The address of an object of the base interface.
    PunkVal(usize),
    /// The address of an object of the dispatch interface.
    PdispVal(usize),
    /// A pointer to an array descriptor.
    Parray(Option<Box<SafeArray>>),
    /// A pointer to an 8-bit unsigned integer.
    PbVal(Option<Box<u8>>),
    /// A pointer to a 16-bit signed integer.
    PiVal(Option<Box<i16>>),
    /// A pointer to a 32-bit signed integer.
    PlVal(Option<Box<i32>>),
    /// A pointer to a 64-bit signed integer.
    PllVal(Option<Box<i64>>),
    /// A pointer to a 32-bit float.
    PfltVal(Option<Box<u32>>),
    /// A pointer to a 64-bit float.
    PdblVal(Option<Box<u64>>),
    /// A pointer to a two-state boolean code.
    PboolVal(Option<Box<i16>>),
    /// A pointer to a status code.
    Pscode(Option<Box<i32>>),
    /// A pointer to a currency amount.
    PcyVal(Option<Box<Cy>>),
    /// A pointer to a day-count date.
    Pdate(Option<Box<u64>>),
    /// A pointer to a wide-string handle.
    PbstrVal(Option<Box<Bstr>>),
    /// A pointer to the address of an object of the base interface.
    PpunkVal(Option<Box<usize>>),
    /// A pointer to the address of an object of the dispatch interface.
    PpdispVal(Option<Box<usize>>),
    /// A pointer to a pointer to an array descriptor.
    Pparray(Option<Box<Option<Box<SafeArray>>>>),
    /// A pointer to another variant record.
    PvarVal(Option<Box<VariantRecord>>),
    /// The address of a value of unknown type.
    Byref(usize),
    /// An 8-bit signed integer.
    CVal(i8),
    /// A 16-bit unsigned integer.
    UiVal(u16),
    /// A 32-bit unsigned integer.
    UlVal(u32),
    /// A 64-bit unsigned integer.
    UllVal(u64),
    /// A native signed integer.
    IntVal(i32),
    /// A native unsigned integer.
    UintVal(u32),
    /// A pointer to a decimal.
    PdecVal(Option<Box<DecimalRecord>>),
    /// A pointer to an 8-bit signed integer.
    PcVal(Option<Box<i8>>),
    /// A pointer to a 16-bit unsigned integer.
    PuiVal(Option<Box<u16>>),
    /// A pointer to a 32-bit unsigned integer.
    PulVal(Option<Box<u32>>),
    /// A pointer to a 64-bit unsigned integer.
    PullVal(Option<Box<u64>>),
    /// A pointer to a native signed integer.
    PintVal(Option<Box<i32>>),
    /// A pointer to a native unsigned integer.
    PuintVal(Option<Box<u32>>),
}

/// An array descriptor: the tag of its elements and one cell for each.
#[derive(Debug, PartialEq, Eq)]
pub struct SafeArray {
    /// The tag that every element carries.
    pub vartype: u16,
    /// The elements, each in a record of its own.
    pub cells: Vec<VariantRecord>,
}

/// The tagged layout of the primary half: the discriminant, three reserved
/// words and the secondary half.
#[derive(Debug, PartialEq, Eq)]
pub struct Tagged {
    /// The discriminant tag.
    pub vt: u16,
    /// Reserved, zero.
    pub reserved1: u16,
    /// Reserved, zero.
    pub reserved2: u16,
    /// Reserved, zero.
    pub reserved3: u16,
    /// The payload.
    pub n3: Payload,
}

/// The primary half of a record: either the tagged layout or, over the same
/// storage, a decimal.
#[derive(Debug, PartialEq, Eq)]
pub enum Primary {
    /// A tag and a payload.
    Tagged(Tagged),
    /// A decimal, whose reserved word lies where the tag would.
    Decimal(DecimalRecord),
}

/// A variant record.
#[derive(Debug, PartialEq, Eq)]
pub struct VariantRecord {
    /// The primary half, which holds the secondary half inside.
    pub n1: Primary,
}

/// Where an accessor puts a field: nowhere, in the secondary half, or over
/// the whole primary half.
pub enum Slot {
    /// Nothing is stored.
    Nothing,
    /// The payload that the secondary half becomes.
    Secondary(Payload),
    /// The layout that the primary half becomes.
    Primary(Primary),
}

impl Primary {
    /// The primary half with every byte zero.
    pub open spec fn spec_zeroed() -> Primary {
        Primary::Tagged(
            Tagged { vt: 0, reserved1: 0, reserved2: 0, reserved3: 0, n3: Payload::Zeroed },
        )
    }

    /// The primary half with every byte zero.
    pub fn zeroed() -> (n1: Primary)
        ensures
            n1 == Primary::spec_zeroed(),
    {
        Primary::Tagged(
            Tagged { vt: 0, reserved1: 0, reserved2: 0, reserved3: 0, n3: Payload::Zeroed },
        )
    }

    /// The two halves as a reader sees them: the primary half with its
    /// payload taken out, and that payload. A decimal has no payload apart
    /// from itself.
    pub open spec fn spec_split(self) -> (Primary, Payload) {
        match self {
            Primary::Tagged(t) => (
                Primary::Tagged(
                    Tagged {
                        vt: t.vt,
                        reserved1: t.reserved1,
                        reserved2: t.reserved2,
                        reserved3: t.reserved3,
                        n3: Payload::Zeroed,
                    },
                ),
                t.n3,
            ),
            Primary::Decimal(d) => (Primary::Decimal(d), Payload::Zeroed),
        }
    }

    /// The primary half as a reader sees it, without its payload.
    pub fn header(&self) -> (n1: Primary)
        ensures
            n1 == self.spec_split().0,
    {
        match self {
            Primary::Tagged(t) => Primary::Tagged(
                Tagged {
                    vt: t.vt,
                    reserved1: t.reserved1,
                    reserved2: t.reserved2,
                    reserved3: t.reserved3,
                    n3: Payload::Zeroed,
                },
            ),
            Primary::Decimal(d) => Primary::Decimal(*d),
        }
    }

    /// Parts the two halves, moving the payload out of the primary half.
    pub fn split(self) -> (halves: (Primary, Payload))
        ensures
            halves == self.spec_split(),
    {
        match self {
            Primary::Tagged(t) => {
                let Tagged { vt, reserved1, reserved2, reserved3, n3 } = t;
                (
                    Primary::Tagged(
                        Tagged { vt, reserved1, reserved2, reserved3, n3: Payload::Zeroed },
                    ),
                    n3,
                )
            },
            Primary::Decimal(d) => (Primary::Decimal(d), Payload::Zeroed),
        }
    }
}

impl VariantRecord {
    /// The word in the tag's place: the tag of a tagged record, the reserved
    /// word of a decimal.
    pub open spec fn spec_vartype(self) -> u16 {
        match self.n1 {
            Primary::Tagged(t) => t.vt,
            Primary::Decimal(d) => d.reserved,
        }
    }

    /// The word in the tag's place.
    pub fn vartype(&self) -> (vt: u16)
        ensures
            vt == self.spec_vartype(),
    {
        match &self.n1 {
            Primary::Tagged(t) => t.vt,
            Primary::Decimal(d) => d.reserved,
        }
    }

    /// The empty record: the empty tag and no payload.
    pub open spec fn spec_empty() -> VariantRecord {
        VariantRecord { n1: Primary::spec_zeroed() }
    }

    /// Releases what the record holds and leaves the empty record.
    pub fn clear(&mut self)
        ensures
            *final(self) == VariantRecord::spec_empty(),
    {
        self.n1 = Primary::zeroed();
    }
}

/// The slot that an accessor registered under `vtype` reads: the primary half
/// for the decimal tag, the secondary half for every other.
pub open spec fn read_slot(vtype: u32, n1: Primary, n3: Payload) -> Slot {
    if vtype == VT_DECIMAL {
        Slot::Primary(n1)
    } else {
        Slot::Secondary(n3)
    }
}

/// Whether writing `slot` takes the halves `(n1, n3)` to `(m1, m3)`: the half
/// that the slot names becomes what the slot holds, and the other stays.
pub open spec fn written(slot: Slot, n1: Primary, n3: Payload, m1: Primary, m3: Payload) -> bool {
    match slot {
        Slot::Nothing => m1 == n1 && m3 == n3,
        Slot::Secondary(p) => m1 == n1 && m3 == p,
        Slot::Primary(p) => m1 == p && m3 == n3,
    }
}

/// The tagged record with the given tag and payload, its reserved words zero.
pub open spec fn tagged_record(vtype: u32, n3: Payload) -> VariantRecord {
    VariantRecord {
        n1: Primary::Tagged(
            Tagged { vt: vtype as u16, reserved1: 0, reserved2: 0, reserved3: 0, n3 },
        ),
    }
}

/// The record that encoding builds for a field stored as `slot` under
/// `vtype`: for the decimal tag the primary half as the accessor wrote it,
/// for every other tag the tagged layout around the payload.
pub open spec fn record_of(vtype: u32, slot: Slot) -> VariantRecord {
    let n1 = match slot {
        Slot::Primary(p) => p,
        _ => Primary::spec_zeroed(),
    };
    let n3 = match slot {
        Slot::Secondary(p) => p,
        _ => Payload::Zeroed,
    };
    if vtype != VT_DECIMAL {
        tagged_record(vtype, n3)
    } else {
        VariantRecord { n1 }
    }
}

} // verus!

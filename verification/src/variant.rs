//! The variant engine: encoding a native value into a record and decoding a
//! record into a native value, for every registered type.

use crate::bridge::TryConvert;
use crate::errors::{FromVariantError, IntoVariantError};
use crate::record::{
    read_slot, record_of, tagged_record, Payload, Primary, Tagged, VariantRecord, VT_DECIMAL,
    VT_EMPTY, VT_NULL,
};
use crate::variant::private::VariantAccess;
use std::marker::PhantomData;
use vstd::pervasive::{cloned, unreached};
use vstd::prelude::*;

pub mod private;

verus! {

/// The empty value: a tag with no payload.
#[derive(Clone, Copy, Debug, PartialEq, Eq, Structural, Hash, PartialOrd, Ord)]
pub struct VtEmpty;

/// The null value: a tag with no payload.
#[derive(Clone, Copy, Debug, PartialEq, Eq, Structural, Hash, PartialOrd, Ord)]
pub struct VtNull;

impl TryConvert<(), FromVariantError> for VtEmpty {
    open spec fn convertible(val: ()) -> bool {
        true
    }

    open spec fn converted(val: (), out: Result<VtEmpty, FromVariantError>) -> bool {
        out == Ok::<VtEmpty, FromVariantError>(VtEmpty)
    }

    fn can_convert(val: &()) -> (b: bool) {
        true
    }

    fn try_convert(val: ()) -> (out: Result<VtEmpty, FromVariantError>) {
        Ok(VtEmpty)
    }
}

impl TryConvert<VtEmpty, IntoVariantError> for () {
    open spec fn convertible(val: VtEmpty) -> bool {
        true
    }

    open spec fn converted(val: VtEmpty, out: Result<(), IntoVariantError>) -> bool {
        out == Ok::<(), IntoVariantError>(())
    }

    fn can_convert(val: &VtEmpty) -> (b: bool) {
        true
    }

    fn try_convert(val: VtEmpty) -> (out: Result<(), IntoVariantError>) {
        Ok(())
    }
}

impl TryConvert<(), FromVariantError> for VtNull {
    open spec fn convertible(val: ()) -> bool {
        true
    }

    open spec fn converted(val: (), out: Result<VtNull, FromVariantError>) -> bool {
        out == Ok::<VtNull, FromVariantError>(VtNull)
    }

    fn can_convert(val: &()) -> (b: bool) {
        true
    }

    fn try_convert(val: ()) -> (out: Result<VtNull, FromVariantError>) {
        Ok(VtNull)
    }
}

impl TryConvert<VtNull, IntoVariantError> for () {
    open spec fn convertible(val: VtNull) -> bool {
        true
    }

    open spec fn converted(val: VtNull, out: Result<(), IntoVariantError>) -> bool {
        out == Ok::<(), IntoVariantError>(())
    }

    fn can_convert(val: &VtNull) -> (b: bool) {
        true
    }

    fn try_convert(val: VtNull) -> (out: Result<(), IntoVariantError>) {
        Ok(())
    }
}

/// Wraps a value so that it is encoded as a nested variant: the record of the
/// wrapper carries the nested-variant tag and points at the record of the
/// value inside.
#[derive(Debug, PartialEq, Eq, Hash, PartialOrd, Ord)]
pub struct Variant<D, T> where D: VariantExt<T> {
    inner: D,
    marker: PhantomData<T>,
}

impl<D, T> Clone for Variant<D, T> where D: VariantExt<T> + Clone {
    /// Wraps a clone of the value inside.
    fn clone(&self) -> (v: Self)
        ensures
            cloned(self.spec_unwrap(), v.spec_unwrap()),
    {
        Variant { inner: self.inner.clone(), marker: PhantomData }
    }
}

impl<D, T> Copy for Variant<D, T> where D: VariantExt<T> + Copy {

}

impl<D, T> Variant<D, T> where D: VariantExt<T> {
    /// The value inside.
    pub closed spec fn spec_unwrap(self) -> D {
        self.inner
    }

    /// Wraps a value.
    pub fn wrap(d: D) -> (v: Self)
        ensures
            v.spec_unwrap() == d,
    {
        Variant { inner: d, marker: PhantomData }
    }

    /// Gives the value inside, consuming the wrapper.
    pub fn unwrap(self) -> (d: D)
        ensures
            d == self.spec_unwrap(),
    {
        self.inner
    }
}

/// A wrapped value converts to the record of the value inside.
impl<D, T> TryConvert<Variant<D, T>, IntoVariantError> for Option<Box<VariantRecord>> where
    D: VariantExt<T>,
 {
    open spec fn convertible(val: Variant<D, T>) -> bool {
        true
    }

    open spec fn converted(
        val: Variant<D, T>,
        out: Result<Option<Box<VariantRecord>>, IntoVariantError>,
    ) -> bool {
        match out {
            Ok(p) => p matches Some(var) && D::encodes(val.spec_unwrap(), Ok(var)),
            Err(e) => D::encodes(val.spec_unwrap(), Err(e)),
        }
    }

    fn can_convert(val: &Variant<D, T>) -> (b: bool) {
        true
    }

    fn try_convert(val: Variant<D, T>) -> (out: Result<
        Option<Box<VariantRecord>>,
        IntoVariantError,
    >) {
        match D::into_variant(val.unwrap()) {
            Ok(var) => Ok(Some(var)),
            Err(e) => Err(e),
        }
    }
}

/// A pointer to a record converts to the wrapped value that the record
/// decodes to; a null pointer is reported.
impl<D, T> TryConvert<Option<Box<VariantRecord>>, FromVariantError> for Variant<D, T> where
    D: VariantExt<T>,
 {
    open spec fn convertible(val: Option<Box<VariantRecord>>) -> bool {
        val matches Some(var) ==> D::decodable(*var)
    }

    open spec fn converted(
        val: Option<Box<VariantRecord>>,
        out: Result<Variant<D, T>, FromVariantError>,
    ) -> bool {
        match val {
            Some(var) => match out {
                Ok(v) => D::decodes(*var, Ok(v.spec_unwrap())),
                Err(e) => D::decodes(*var, Err(e)),
            },
            None => out == Err::<Variant<D, T>, FromVariantError>(
                FromVariantError::VariantPtrNull,
            ),
        }
    }

    fn can_convert(val: &Option<Box<VariantRecord>>) -> (b: bool) {
        match val {
            Some(var) => D::is_decodable(var),
            None => true,
        }
    }

    fn try_convert(val: Option<Box<VariantRecord>>) -> (out: Result<
        Variant<D, T>,
        FromVariantError,
    >) {
        match val {
            Some(var) => match D::from_variant(var) {
                Ok(d) => Ok(Variant::wrap(d)),
                Err(e) => Err(e),
            },
            None => Err(FromVariantError::VariantPtrNull),
        }
    }
}

/// Encoding a unit value gives the record with the value's tag and no
/// payload; every record decodes to the unit value, for nothing is read.
pub proof fn lemma_unit_payload()
    ensures
        forall|out: Result<Box<VariantRecord>, IntoVariantError>| #[trigger]
            <VtEmpty as VariantExt<()>>::encodes(VtEmpty, out) <==> out == Ok::<
                Box<VariantRecord>,
                IntoVariantError,
            >(Box::new(tagged_record(VT_EMPTY, Payload::Zeroed))),
        forall|out: Result<Box<VariantRecord>, IntoVariantError>| #[trigger]
            <VtNull as VariantExt<()>>::encodes(VtNull, out) <==> out == Ok::<
                Box<VariantRecord>,
                IntoVariantError,
            >(Box::new(tagged_record(VT_NULL, Payload::Zeroed))),
        forall|var: VariantRecord| #[trigger] <VtEmpty as VariantExt<()>>::decodable(var),
        forall|var: VariantRecord| #[trigger] <VtNull as VariantExt<()>>::decodable(var),
        forall|var: VariantRecord, out: Result<VtEmpty, FromVariantError>| #[trigger]
            <VtEmpty as VariantExt<()>>::decodes(var, out) <==> out == Ok::<
                VtEmpty,
                FromVariantError,
            >(VtEmpty),
        forall|var: VariantRecord, out: Result<VtNull, FromVariantError>| #[trigger]
            <VtNull as VariantExt<()>>::decodes(var, out) <==> out == Ok::<
                VtNull,
                FromVariantError,
            >(VtNull),
{
    assert forall|out: Result<Box<VariantRecord>, IntoVariantError>| #[trigger]
        <VtEmpty as VariantExt<()>>::encodes(VtEmpty, out) <==> out == Ok::<
            Box<VariantRecord>,
            IntoVariantError,
        >(Box::new(tagged_record(VT_EMPTY, Payload::Zeroed))) by {
        if out == Ok::<Box<VariantRecord>, IntoVariantError>(
            Box::new(tagged_record(VT_EMPTY, Payload::Zeroed)),
        ) {
            assert(<() as TryConvert<VtEmpty, IntoVariantError>>::converted(VtEmpty, Ok(())));
        }
    }
    assert forall|out: Result<Box<VariantRecord>, IntoVariantError>| #[trigger]
        <VtNull as VariantExt<()>>::encodes(VtNull, out) <==> out == Ok::<
            Box<VariantRecord>,
            IntoVariantError,
        >(Box::new(tagged_record(VT_NULL, Payload::Zeroed))) by {
        if out == Ok::<Box<VariantRecord>, IntoVariantError>(
            Box::new(tagged_record(VT_NULL, Payload::Zeroed)),
        ) {
            assert(<() as TryConvert<VtNull, IntoVariantError>>::converted(VtNull, Ok(())));
        }
    }
}

/// Holds a record until it is released. Releasing gives up what the record
/// holds and then the record itself; a guard that holds nothing releases
/// nothing.
pub struct VariantDestructor {
    inner: Option<Box<VariantRecord>>,
}

impl VariantDestructor {
    /// The record held, if one is.
    pub closed spec fn record(self) -> Option<VariantRecord> {
        match self.inner {
            Some(var) => Some(*var),
            None => None,
        }
    }

    /// The guard after a release: it holds nothing.
    pub closed spec fn spec_release(self) -> VariantDestructor {
        VariantDestructor { inner: None }
    }

    /// Guards the record behind `p`, or nothing for a null `p`.
    pub fn new(p: Option<Box<VariantRecord>>) -> (guard: VariantDestructor)
        ensures
            guard.record() == match p {
                Some(var) => Some(*var),
                None => None,
            },
    {
        VariantDestructor { inner: p }
    }

    /// Whether the guard holds nothing.
    pub fn is_null(&self) -> (b: bool)
        ensures
            b == (self.record() is None),
    {
        self.inner.is_none()
    }

    /// Moves the two halves out of the guarded record, which is left empty.
    pub fn halves(&mut self) -> (halves: (Primary, Payload))
        requires
            old(self).record() is Some,
        ensures
            halves == old(self).record()->Some_0.n1.spec_split(),
            final(self).record() == Some(VariantRecord::spec_empty()),
    {
        let taken = self.inner.take();
        match taken {
            Some(mut var) => {
                let mut n1 = Primary::zeroed();
                std::mem::swap(&mut var.n1, &mut n1);
                self.inner = Some(var);
                n1.split()
            },
            None => unreached(),
        }
    }

    /// Releases the guarded record, exactly once: a guard that holds nothing
    /// is left as it is.
    pub fn release(&mut self)
        ensures
            *final(self) == old(self).spec_release(),
            final(self).record() is None,
            old(self).record() is None ==> *final(self) == *old(self),
    {
        match self.inner.take() {
            Some(mut var) => {
                var.clear();
            },
            None => {},
        }
    }

    /// Releasing twice leaves what releasing once leaves, and releasing a
    /// guard that holds nothing changes nothing.
    pub proof fn lemma_release_idempotent(guard: VariantDestructor)
        ensures
            guard.spec_release().spec_release() == guard.spec_release(),
            guard.spec_release().record() is None,
            guard.record() is None ==> guard.spec_release() == guard,
    {
    }
}

/// Conversion of a native type to and from a variant record. `B` is the field
/// that a record stores for the type.
pub trait VariantExt<B>: Sized {
    /// The discriminant tag of the type.
    const VARTYPE: u32;

    /// The discriminant tag of the type, for contracts.
    spec fn spec_vartype() -> u32;

    /// Whether `out` is what encoding `value` gives.
    spec fn encodes(value: Self, out: Result<Box<VariantRecord>, IntoVariantError>) -> bool;

    /// Whether the record can be decoded as this type: the member that the
    /// type reads is the active one, and so in every record nested in it.
    spec fn decodable(var: VariantRecord) -> bool;

    /// Whether `out` is what decoding `var` gives.
    spec fn decodes(var: VariantRecord, out: Result<Self, FromVariantError>) -> bool;

    /// Whether two values stand for the same payload.
    spec fn same_value(a: Self, b: Self) -> bool;

    /// Tests whether the record can be decoded as this type.
    fn is_decodable(var: &VariantRecord) -> (b: bool)
        ensures
            b == Self::decodable(*var),
    ;

    /// Decodes a record, which is consumed and released whatever the outcome.
    fn from_variant(var: Box<VariantRecord>) -> (out: Result<Self, FromVariantError>)
        requires
            Self::decodable(*var),
        ensures
            Self::decodes(*var, out),
    ;

    /// Encodes a value into a new record.
    fn into_variant(value: Self) -> (out: Result<Box<VariantRecord>, IntoVariantError>)
        ensures
            Self::encodes(value, out),
    ;

    /// Encoding does not fail.
    proof fn lemma_encode_succeeds(
        value: Self,
        out: Result<Box<VariantRecord>, IntoVariantError>,
    )
        requires
            Self::encodes(value, out),
        ensures
            out is Ok,
    ;

    /// A record that encoding gave can be decoded, carries the type's tag in
    /// the tag's place unless it is a decimal, and decodes to a value that
    /// stands for the same payload as the one encoded. The tag is the one that
    /// contracts speak of.
    proof fn lemma_round_trip(value: Self, var: VariantRecord, back: Result<Self, FromVariantError>)
        requires
            Self::encodes(value, Ok(Box::new(var))),
        ensures
            Self::decodable(var),
            Self::VARTYPE == Self::spec_vartype(),
            Self::spec_vartype() != VT_DECIMAL ==> var.spec_vartype() == Self::spec_vartype(),
            Self::decodes(var, back) ==> (back matches Ok(v) && Self::same_value(v, value)),
    ;
}

impl<OutTy, InTy> VariantExt<InTy> for OutTy where
    OutTy: TryConvert<InTy, FromVariantError> + VariantAccess<Field = InTy>,
    InTy: TryConvert<OutTy, IntoVariantError>,
 {
    const VARTYPE: u32 = OutTy::VTYPE;

    open spec fn spec_vartype() -> u32 {
        OutTy::spec_vtype()
    }

    open spec fn encodes(value: OutTy, out: Result<Box<VariantRecord>, IntoVariantError>) -> bool {
        match out {
            Ok(var) => exists|field: InTy|
                #![trigger InTy::converted(value, Ok(field))]
                InTy::converted(value, Ok(field)) && *var == record_of(
                    OutTy::spec_vtype(),
                    OutTy::spec_into_var(field),
                ),
            Err(e) => InTy::converted(value, Err(e)),
        }
    }

    open spec fn decodable(var: VariantRecord) -> bool {
        let halves = var.n1.spec_split();
        let slot = read_slot(OutTy::spec_vtype(), halves.0, halves.1);
        OutTy::spec_readable(slot) && OutTy::convertible(OutTy::spec_from_var(slot))
    }

    open spec fn decodes(var: VariantRecord, out: Result<OutTy, FromVariantError>) -> bool {
        let halves = var.n1.spec_split();
        OutTy::converted(
            OutTy::spec_from_var(read_slot(OutTy::spec_vtype(), halves.0, halves.1)),
            out,
        )
    }

    open spec fn same_value(a: OutTy, b: OutTy) -> bool {
        OutTy::same(a, b)
    }

    fn is_decodable(var: &VariantRecord) -> (b: bool) {
        let n1 = var.n1.header();
        let zeroed = Payload::Zeroed;
        let n3 = match &var.n1 {
            Primary::Tagged(t) => &t.n3,
            Primary::Decimal(_) => &zeroed,
        };
        OutTy::readable(&n1, n3) && OutTy::can_convert(OutTy::field_ref(&n1, n3))
    }

    fn from_variant(var: Box<VariantRecord>) -> (out: Result<OutTy, FromVariantError>) {
        let mut guard = VariantDestructor::new(Some(var));
        let (n1, n3) = guard.halves();
        let inner = OutTy::from_var(&n1, n3);
        let out = OutTy::try_convert(inner);
        guard.release();
        out
    }

    fn into_variant(value: OutTy) -> (out: Result<Box<VariantRecord>, IntoVariantError>) {
        let mut n3 = Payload::Zeroed;
        let mut n1 = Primary::zeroed();
        proof {
            OutTy::lemma_convertible(value);
        }
        match InTy::try_convert(value) {
            Err(e) => Err(e),
            Ok(field) => {
                OutTy::into_var(field, &mut n1, &mut n3);
                let vt = OutTy::VTYPE;
                proof {
                    OutTy::lemma_vtype_fits();
                }
                if vt != VT_DECIMAL {
                    n1 = Primary::Tagged(
                        Tagged { vt: vt as u16, reserved1: 0, reserved2: 0, reserved3: 0, n3 },
                    );
                }
                proof {
                    OutTy::lemma_read_back(field);
                }
                Ok(Box::new(VariantRecord { n1 }))
            },
        }
    }

    proof fn lemma_encode_succeeds(
        value: OutTy,
        out: Result<Box<VariantRecord>, IntoVariantError>,
    ) {
        match out {
            Ok(_) => {},
            Err(e) => OutTy::lemma_never_refused(value, e),
        }
    }

    proof fn lemma_round_trip(
        value: OutTy,
        var: VariantRecord,
        back: Result<OutTy, FromVariantError>,
    ) {
        let field = choose|field: InTy|
            #![trigger InTy::converted(value, Ok(field))]
            InTy::converted(value, Ok(field)) && var == record_of(
                OutTy::spec_vtype(),
                OutTy::spec_into_var(field),
            );
        OutTy::lemma_vtype_fits();
        OutTy::lemma_read_back(field);
        OutTy::lemma_there_and_back(value, field, back);
    }
}

} // verus!

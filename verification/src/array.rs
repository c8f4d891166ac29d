//! The array payload: a descriptor that holds one record for each element.
//! A sequence is encoded element by element and read back the same way; the
//! first element that fails decides the error.

use crate::bridge::TryConvert;
use crate::errors::{ElementError, FromVariantError, IntoVariantError};
use crate::ptr::{IDispatch, IUnknown, Ptr};
use crate::record::{SafeArray, VariantRecord, VT_ARRAY};
use crate::types::{
    Currency, Date, DecWrapper, F32Bits, F64Bits, Int, SCode, UInt, VariantBool,
};
use crate::variant::private::VariantAccess;
use crate::variant::{Variant, VariantExt};
use vstd::prelude::*;
use widestring::U16String;

verus! {

/// A registered type whose values can be the elements of an array.
pub trait SafeArrayElement: VariantAccess + TryConvert<
    <Self as VariantAccess>::Field,
    FromVariantError,
> {

}

impl SafeArrayElement for i8 {

}

impl SafeArrayElement for i16 {

}

impl SafeArrayElement for i32 {

}

impl SafeArrayElement for u8 {

}

impl SafeArrayElement for u16 {

}

impl SafeArrayElement for u32 {

}

impl SafeArrayElement for F32Bits {

}

impl SafeArrayElement for F64Bits {

}

impl SafeArrayElement for Currency {

}

impl SafeArrayElement for Date {

}

impl SafeArrayElement for SCode {

}

impl SafeArrayElement for VariantBool {

}

impl SafeArrayElement for Int {

}

impl SafeArrayElement for UInt {

}

impl SafeArrayElement for DecWrapper {

}

impl SafeArrayElement for U16String {

}

impl SafeArrayElement for Ptr<IUnknown> {

}

impl SafeArrayElement for Ptr<IDispatch> {

}

impl<D, T> SafeArrayElement for Variant<D, T> where D: VariantExt<T> {

}

/// Whether `out` is what encoding the element `value` gives.
pub open spec fn element_encodes<S: SafeArrayElement>(
    value: S,
    out: Result<Box<VariantRecord>, IntoVariantError>,
) -> bool {
    <S as VariantExt<<S as VariantAccess>::Field>>::encodes(value, out)
}

/// Whether the cell can be decoded as an element.
pub open spec fn element_decodable<S: SafeArrayElement>(cell: VariantRecord) -> bool {
    <S as VariantExt<<S as VariantAccess>::Field>>::decodable(cell)
}

/// Whether `out` is what decoding the cell as an element gives.
pub open spec fn element_decodes<S: SafeArrayElement>(
    cell: VariantRecord,
    out: Result<S, FromVariantError>,
) -> bool {
    <S as VariantExt<<S as VariantAccess>::Field>>::decodes(cell, out)
}

/// Whether `cells` are records of the elements `values`, one for one.
pub open spec fn cells_encode<S: SafeArrayElement>(
    values: Seq<S>,
    cells: Seq<VariantRecord>,
) -> bool {
    &&& cells.len() == values.len()
    &&& forall|i: int|
        0 <= i < values.len() ==> #[trigger] element_encodes::<S>(values[i], Ok(Box::new(cells[i])))
}

/// Whether `values` are what the records `cells` decode to, one for one.
pub open spec fn cells_decode<S: SafeArrayElement>(
    cells: Seq<VariantRecord>,
    values: Seq<S>,
) -> bool {
    &&& values.len() == cells.len()
    &&& forall|i: int|
        0 <= i < cells.len() ==> #[trigger] element_decodes::<S>(cells[i], Ok(values[i]))
}

/// Whether encoding stops at element `i`: the elements before it have the
/// cells `before`, and element `i` has the encode error `inner`.
pub open spec fn element_refused<S: SafeArrayElement>(
    values: Seq<S>,
    i: int,
    inner: IntoVariantError,
    before: Seq<VariantRecord>,
) -> bool {
    &&& 0 <= i < values.len()
    &&& cells_encode::<S>(values.take(i), before)
    &&& element_encodes::<S>(values[i], Err(inner))
}

/// Whether decoding stops at cell `i`: the cells before it decode to
/// `before`, and cell `i` has the decode error `inner`.
pub open spec fn cell_refused<S: SafeArrayElement>(
    cells: Seq<VariantRecord>,
    i: int,
    inner: FromVariantError,
    before: Seq<S>,
) -> bool {
    &&& 0 <= i < cells.len()
    &&& cells_decode::<S>(cells.take(i), before)
    &&& element_decodes::<S>(cells[i], Err(inner))
}

/// Whether `out` is what making a descriptor of `values` gives: a cell for
/// each element under the elements' tag, or the encode error of the first
/// element that has one.
pub open spec fn array_encodes<S: SafeArrayElement>(
    values: Seq<S>,
    out: Result<SafeArray, IntoVariantError>,
) -> bool {
    match out {
        Ok(array) => array.vartype == S::spec_vtype() as u16 && cells_encode::<S>(
            values,
            array.cells@,
        ),
        Err(e) => exists|i: int, inner: IntoVariantError, before: Seq<VariantRecord>|
            #[trigger] element_refused::<S>(values, i, inner, before) && e
                == IntoVariantError::ElementConversion(ElementError::Into(Box::new(inner))),
    }
}

/// Whether every cell can be decoded as an element.
pub open spec fn array_decodable<S: SafeArrayElement>(cells: Seq<VariantRecord>) -> bool {
    forall|i: int| 0 <= i < cells.len() ==> #[trigger] element_decodable::<S>(cells[i])
}

/// Whether `out` is what reading the cells gives: the elements in order, or
/// the decode error of the first cell that has one.
pub open spec fn array_decodes<S: SafeArrayElement>(
    cells: Seq<VariantRecord>,
    out: Result<Vec<S>, FromVariantError>,
) -> bool {
    match out {
        Ok(values) => cells_decode::<S>(cells, values@),
        Err(e) => exists|i: int, inner: FromVariantError, before: Seq<S>|
            #[trigger] cell_refused::<S>(cells, i, inner, before) && e
                == FromVariantError::ElementConversion(ElementError::From(Box::new(inner))),
    }
}

proof fn lemma_encode_step<S: SafeArrayElement>(
    values: Seq<S>,
    at: int,
    before: Seq<VariantRecord>,
    cell: VariantRecord,
)
    requires
        0 <= at < values.len(),
        cells_encode::<S>(values.take(at), before),
        element_encodes::<S>(values[at], Ok(Box::new(cell))),
    ensures
        cells_encode::<S>(values.take(at + 1), before.push(cell)),
{
    let cells = before.push(cell);
    assert forall|i: int| 0 <= i < at + 1 implies #[trigger] element_encodes::<S>(
        values.take(at + 1)[i],
        Ok(Box::new(cells[i])),
    ) by {
        if i < at {
            assert(element_encodes::<S>(values.take(at)[i], Ok(Box::new(before[i]))));
        }
    }
}

proof fn lemma_decode_step<S: SafeArrayElement>(
    cells: Seq<VariantRecord>,
    at: int,
    before: Seq<S>,
    value: S,
)
    requires
        0 <= at < cells.len(),
        cells_decode::<S>(cells.take(at), before),
        element_decodes::<S>(cells[at], Ok(value)),
    ensures
        cells_decode::<S>(cells.take(at + 1), before.push(value)),
{
    let values = before.push(value);
    assert forall|i: int| 0 <= i < at + 1 implies #[trigger] element_decodes::<S>(
        cells.take(at + 1)[i],
        Ok(values[i]),
    ) by {
        if i < at {
            assert(element_decodes::<S>(cells.take(at)[i], Ok(before[i])));
        }
    }
}

/// The same items in the opposite order.
fn reversed<A>(items: Vec<A>) -> (r: Vec<A>)
    ensures
        r@ == items@.reverse(),
{
    let ghost orig = items@;
    let mut items = items;
    let mut r: Vec<A> = Vec::new();
    while items.len() > 0
        invariant
            r@.len() + items@.len() == orig.len(),
            items@ == orig.take(items@.len() as int),
            forall|k: int| 0 <= k < r@.len() ==> r@[k] == orig[orig.len() - 1 - k],
        decreases items.len(),
    {
        let item = items.pop();
        match item {
            Some(x) => {
                r.push(x);
            },
            None => {},
        }
    }
    assert(r@ =~= orig.reverse());
    r
}

impl SafeArray {
    /// Makes the descriptor of a sequence: each element is encoded into a
    /// cell of its own, in order.
    pub fn from_elements<S: SafeArrayElement>(values: Vec<S>) -> (out: Result<
        SafeArray,
        IntoVariantError,
    >)
        ensures
            array_encodes::<S>(values@, out),
    {
        let ghost orig = values@;
        let mut rest = reversed(values);
        let mut cells: Vec<VariantRecord> = Vec::new();
        while rest.len() > 0
            invariant
                orig == values@,
                cells@.len() + rest@.len() == orig.len(),
                rest@ == orig.reverse().take(rest@.len() as int),
                cells_encode::<S>(orig.take(cells@.len() as int), cells@),
            decreases rest.len(),
        {
            let ghost at = cells@.len() as int;
            let item = rest.pop();
            match item {
                Some(value) => {
                    assert(value == orig[at]);
                    match <S as VariantExt<<S as VariantAccess>::Field>>::into_variant(value) {
                        Ok(cell) => {
                            proof {
                                lemma_encode_step::<S>(orig, at, cells@, *cell);
                            }
                            cells.push(*cell);
                        },
                        Err(inner) => {
                            assert(element_refused::<S>(orig, at, inner, cells@));
                            return Err(
                                IntoVariantError::ElementConversion(
                                    ElementError::Into(Box::new(inner)),
                                ),
                            );
                        },
                    }
                },
                None => {},
            }
        }
        proof {
            S::lemma_vtype_fits();
            assert(orig.take(orig.len() as int) =~= orig);
        }
        Ok(SafeArray { vartype: S::VTYPE as u16, cells })
    }

    /// Tests whether every cell can be decoded as an element.
    pub fn is_readable<S: SafeArrayElement>(&self) -> (b: bool)
        ensures
            b == array_decodable::<S>(self.cells@),
    {
        let mut i: usize = 0;
        while i < self.cells.len()
            invariant
                i <= self.cells@.len(),
                forall|k: int| 0 <= k < i ==> #[trigger] element_decodable::<S>(self.cells@[k]),
            decreases self.cells@.len() - i,
        {
            if !<S as VariantExt<<S as VariantAccess>::Field>>::is_decodable(&self.cells[i]) {
                assert(!element_decodable::<S>(self.cells@[i as int]));
                return false;
            }
            i += 1;
        }
        true
    }

    /// Reads the descriptor back as a sequence: each cell is decoded as an
    /// element, in order.
    pub fn into_elements<S: SafeArrayElement>(self) -> (out: Result<Vec<S>, FromVariantError>)
        requires
            array_decodable::<S>(self.cells@),
        ensures
            array_decodes::<S>(self.cells@, out),
    {
        let ghost orig = self.cells@;
        let mut rest = reversed(self.cells);
        let mut values: Vec<S> = Vec::new();
        while rest.len() > 0
            invariant
                orig == self.cells@,
                array_decodable::<S>(orig),
                values@.len() + rest@.len() == orig.len(),
                rest@ == orig.reverse().take(rest@.len() as int),
                cells_decode::<S>(orig.take(values@.len() as int), values@),
            decreases rest.len(),
        {
            let ghost at = values@.len() as int;
            let item = rest.pop();
            match item {
                Some(cell) => {
                    assert(cell == orig[at]);
                    assert(element_decodable::<S>(orig[at]));
                    match <S as VariantExt<<S as VariantAccess>::Field>>::from_variant(
                        Box::new(cell),
                    ) {
                        Ok(value) => {
                            proof {
                                lemma_decode_step::<S>(orig, at, values@, value);
                            }
                            values.push(value);
                        },
                        Err(inner) => {
                            assert(cell_refused::<S>(orig, at, inner, values@));
                            return Err(
                                FromVariantError::ElementConversion(
                                    ElementError::From(Box::new(inner)),
                                ),
                            );
                        },
                    }
                },
                None => {},
            }
        }
        assert(orig.take(orig.len() as int) =~= orig);
        Ok(values)
    }
}

/// Whether two sequences stand for the same elements, one for one.
pub open spec fn same_elements<S: SafeArrayElement>(a: Seq<S>, b: Seq<S>) -> bool {
    &&& a.len() == b.len()
    &&& forall|i: int| 0 <= i < a.len() ==> #[trigger] S::same(a[i], b[i])
}

/// Cells that encoding gave can be decoded, and decode to as many elements,
/// each standing for the same payload as the element encoded.
pub proof fn lemma_cells_round_trip<S: SafeArrayElement>(
    values: Seq<S>,
    cells: Seq<VariantRecord>,
    back: Result<Vec<S>, FromVariantError>,
)
    requires
        cells_encode::<S>(values, cells),
    ensures
        array_decodable::<S>(cells),
        array_decodes::<S>(cells, back) ==> (back matches Ok(v) && same_elements::<S>(
            v@,
            values,
        )),
{
    assert forall|i: int| 0 <= i < cells.len() implies #[trigger] element_decodable::<S>(
        cells[i],
    ) by {
        assert(element_encodes::<S>(values[i], Ok(Box::new(cells[i]))));
        <S as VariantExt<<S as VariantAccess>::Field>>::lemma_round_trip(
            values[i],
            cells[i],
            Err(FromVariantError::VariantPtrNull),
        );
    }
    if array_decodes::<S>(cells, back) {
        match back {
            Ok(v) => {
                assert forall|i: int| 0 <= i < v@.len() implies #[trigger] S::same(
                    v@[i],
                    values[i],
                ) by {
                    assert(element_encodes::<S>(values[i], Ok(Box::new(cells[i]))));
                    assert(element_decodes::<S>(cells[i], Ok(v@[i])));
                    <S as VariantExt<<S as VariantAccess>::Field>>::lemma_round_trip(
                        values[i],
                        cells[i],
                        Ok(v@[i]),
                    );
                }
            },
            Err(e) => {
                let (i, inner, before) = choose|
                    i: int,
                    inner: FromVariantError,
                    before: Seq<S>,
                |
                    #[trigger] cell_refused::<S>(cells, i, inner, before) && e
                        == FromVariantError::ElementConversion(
                        ElementError::From(Box::new(inner)),
                    );
                assert(element_encodes::<S>(values[i], Ok(Box::new(cells[i]))));
                <S as VariantExt<<S as VariantAccess>::Field>>::lemma_round_trip(
                    values[i],
                    cells[i],
                    Err(inner),
                );
            },
        }
    }
}

/// Making the descriptor of a sequence does not fail.
pub proof fn lemma_array_never_refused<S: SafeArrayElement>(values: Seq<S>, e: IntoVariantError)
    ensures
        !array_encodes::<S>(values, Err(e)),
{
    if array_encodes::<S>(values, Err(e)) {
        let (i, inner, before) = choose|
            i: int,
            inner: IntoVariantError,
            before: Seq<VariantRecord>,
        |
            #[trigger] element_refused::<S>(values, i, inner, before) && e
                == IntoVariantError::ElementConversion(ElementError::Into(Box::new(inner)));
        <S as VariantExt<<S as VariantAccess>::Field>>::lemma_encode_succeeds(
            values[i],
            Err(inner),
        );
    }
}

/// A sequence converts to a pointer to its descriptor.
impl<S: SafeArrayElement> TryConvert<Vec<S>, IntoVariantError> for Option<Box<SafeArray>> {
    open spec fn convertible(val: Vec<S>) -> bool {
        true
    }

    open spec fn converted(
        val: Vec<S>,
        out: Result<Option<Box<SafeArray>>, IntoVariantError>,
    ) -> bool {
        match out {
            Ok(p) => p matches Some(array) && array_encodes::<S>(val@, Ok(*array)),
            Err(e) => array_encodes::<S>(val@, Err(e)),
        }
    }

    fn can_convert(val: &Vec<S>) -> (b: bool) {
        true
    }

    fn try_convert(val: Vec<S>) -> (out: Result<Option<Box<SafeArray>>, IntoVariantError>) {
        match SafeArray::from_elements(val) {
            Ok(array) => Ok(Some(Box::new(array))),
            Err(e) => Err(e),
        }
    }
}

/// A pointer to a descriptor converts to the sequence of its elements; a
/// null pointer is reported.
impl<S: SafeArrayElement> TryConvert<Option<Box<SafeArray>>, FromVariantError> for Vec<S> {
    open spec fn convertible(val: Option<Box<SafeArray>>) -> bool {
        val matches Some(array) ==> array_decodable::<S>(array.cells@)
    }

    open spec fn converted(
        val: Option<Box<SafeArray>>,
        out: Result<Vec<S>, FromVariantError>,
    ) -> bool {
        match val {
            Some(array) => array_decodes::<S>(array.cells@, out),
            None => out == Err::<Vec<S>, FromVariantError>(FromVariantError::VariantPtrNull),
        }
    }

    fn can_convert(val: &Option<Box<SafeArray>>) -> (b: bool) {
        match val {
            Some(array) => array.is_readable::<S>(),
            None => true,
        }
    }

    fn try_convert(val: Option<Box<SafeArray>>) -> (out: Result<Vec<S>, FromVariantError>) {
        match val {
            Some(array) => {
                let array: SafeArray = *array;
                array.into_elements()
            },
            None => Err(FromVariantError::VariantPtrNull),
        }
    }
}

/// A boxed sequence converts to a pointer to a pointer to its descriptor.
impl<S: SafeArrayElement> TryConvert<Box<Vec<S>>, IntoVariantError> for Option<
    Box<Option<Box<SafeArray>>>,
> {
    open spec fn convertible(val: Box<Vec<S>>) -> bool {
        true
    }

    open spec fn converted(
        val: Box<Vec<S>>,
        out: Result<Option<Box<Option<Box<SafeArray>>>>, IntoVariantError>,
    ) -> bool {
        match out {
            Ok(p) => p matches Some(q) && *q matches Some(array) && array_encodes::<S>(
                val@,
                Ok(*array),
            ),
            Err(e) => array_encodes::<S>(val@, Err(e)),
        }
    }

    fn can_convert(val: &Box<Vec<S>>) -> (b: bool) {
        true
    }

    fn try_convert(val: Box<Vec<S>>) -> (out: Result<
        Option<Box<Option<Box<SafeArray>>>>,
        IntoVariantError,
    >) {
        match SafeArray::from_elements(*val) {
            Ok(array) => Ok(Some(Box::new(Some(Box::new(array))))),
            Err(e) => Err(e),
        }
    }
}

/// Both pointers on the way to the descriptor pass the null check.
impl<S: SafeArrayElement> TryConvert<
    Option<Box<Option<Box<SafeArray>>>>,
    FromVariantError,
> for Box<Vec<S>> {
    open spec fn convertible(val: Option<Box<Option<Box<SafeArray>>>>) -> bool {
        val matches Some(q) ==> (*q matches Some(array) ==> array_decodable::<S>(array.cells@))
    }

    open spec fn converted(
        val: Option<Box<Option<Box<SafeArray>>>>,
        out: Result<Box<Vec<S>>, FromVariantError>,
    ) -> bool {
        match val {
            Some(q) => match *q {
                Some(array) => match out {
                    Ok(values) => array_decodes::<S>(array.cells@, Ok(*values)),
                    Err(e) => array_decodes::<S>(array.cells@, Err(e)),
                },
                None => out == Err::<Box<Vec<S>>, FromVariantError>(
                    FromVariantError::VariantPtrNull,
                ),
            },
            None => out == Err::<Box<Vec<S>>, FromVariantError>(
                FromVariantError::VariantPtrNull,
            ),
        }
    }

    fn can_convert(val: &Option<Box<Option<Box<SafeArray>>>>) -> (b: bool) {
        match val {
            Some(q) => match &**q {
                Some(array) => array.is_readable::<S>(),
                None => true,
            },
            None => true,
        }
    }

    fn try_convert(val: Option<Box<Option<Box<SafeArray>>>>) -> (out: Result<
        Box<Vec<S>>,
        FromVariantError,
    >) {
        match val {
            Some(q) => match *q {
                Some(array) => {
                    let array: SafeArray = *array;
                    match array.into_elements() {
                        Ok(values) => Ok(Box::new(values)),
                        Err(e) => Err(e),
                    }
                },
                None => Err(FromVariantError::VariantPtrNull),
            },
            None => Err(FromVariantError::VariantPtrNull),
        }
    }
}

/// Encoding a sequence of `n` elements and decoding the record gives a
/// sequence of `n` elements, each standing for the same payload as the
/// element it came from. The record carries the array tag.
pub proof fn lemma_array_round_trip<S: SafeArrayElement>(
    values: Vec<S>,
    var: VariantRecord,
    back: Result<Vec<S>, FromVariantError>,
)
    requires
        <Vec<S> as VariantExt<Option<Box<SafeArray>>>>::encodes(values, Ok(Box::new(var))),
    ensures
        <Vec<S> as VariantExt<Option<Box<SafeArray>>>>::decodable(var),
        var.spec_vartype() == VT_ARRAY,
        <Vec<S> as VariantExt<Option<Box<SafeArray>>>>::decodes(var, back) ==> (
        back matches Ok(v) && v@.len() == values@.len() && forall|i: int|
            0 <= i < values@.len() ==> #[trigger] S::same(v@[i], values@[i])),
{
    <Vec<S> as VariantExt<Option<Box<SafeArray>>>>::lemma_round_trip(values, var, back);
}

} // verus!

//! The wide-string payload: a counted run of 16-bit units with no encoding of
//! its own, and its conversions to and from `widestring::U16String`.

use vstd::prelude::*;
use widestring::U16String;

verus! {

/// `widestring::U16String`, a collection of 16-bit units.
#[verifier::external_type_specification]
#[verifier::external_body]
pub struct ExU16String(U16String);

/// The units that a wide string holds, in order.
pub uninterp spec fn wide_units(s: U16String) -> Seq<u16>;

/// Calls `U16String::from_vec`, which takes the vector as the string's units
/// without looking at them.
#[verifier::external_body]
fn wide_from_vec(units: Vec<u16>) -> (s: U16String)
    ensures
        wide_units(s) == units@,
{
    U16String::from_vec(units)
}

/// Calls `U16String::into_vec`, which hands out the string's units.
#[verifier::external_body]
fn wide_into_vec(s: U16String) -> (units: Vec<u16>)
    ensures
        units@ == wide_units(s),
{
    s.into_vec()
}

/// A wide-string handle as a record holds it: the owned units of the string.
#[derive(Debug, PartialEq, Eq)]
pub struct Bstr {
    /// The units of the string, without a terminator.
    pub units: Vec<u16>,
}

impl View for Bstr {
    type V = Seq<u16>;

    open spec fn view(&self) -> Seq<u16> {
        self.units@
    }
}

impl Bstr {
    /// Makes the handle of a wide string: it holds the units of `s`.
    pub fn allocate(s: U16String) -> (b: Bstr)
        ensures
            b@ == wide_units(s),
    {
        Bstr { units: wide_into_vec(s) }
    }

    /// Reads the handle back as a wide string with the same units.
    pub fn into_wide(self) -> (s: U16String)
        ensures
            wide_units(s) == self@,
    {
        wide_from_vec(self.units)
    }
}

} // verus!

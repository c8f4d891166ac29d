use oaidl::decimal::DecimalRecord;
use oaidl::errors::{ElementError, FromVariantError};
use oaidl::ptr::{IDispatch, IUnknown, Ptr, Void};
use oaidl::record::{
    Payload, Primary, SafeArray, Tagged, VariantRecord, VT_ARRAY, VT_BOOL, VT_BSTR, VT_BYREF,
    VT_CY, VT_DATE, VT_DECIMAL, VT_DISPATCH, VT_EMPTY, VT_ERROR, VT_I1, VT_I2, VT_I4, VT_I8, VT_INT,
    VT_NULL, VT_PARRAY, VT_PBOOL, VT_PBSTR, VT_PCY, VT_PDATE, VT_PDECIMAL, VT_PDISPATCH, VT_PERROR,
    VT_PI1, VT_PI2, VT_PI4, VT_PI8, VT_PINT, VT_PR4, VT_PR8, VT_PUI1, VT_PUI2, VT_PUI4, VT_PUI8,
    VT_PUINT, VT_PUNKNOWN, VT_R4, VT_R8, VT_UI1, VT_UI2, VT_UI4, VT_UI8, VT_UINT, VT_UNKNOWN,
    VT_VARIANT,
};
use oaidl::types::{
    Currency, Cy, Date, DecWrapper, F32Bits, F64Bits, Int, SCode, UInt, VariantBool,
};
use oaidl::variant::{Variant, VariantDestructor, VariantExt, VtEmpty, VtNull};
use rust_decimal::Decimal;
use std::fmt::Debug;
use widestring::U16String;

fn validate<T, F>(v: T, vt: u32)
where
    T: VariantExt<F> + Clone + PartialEq + Debug,
{
    let var: Box<VariantRecord> = <T as VariantExt<F>>::into_variant(v.clone()).unwrap();
    assert_eq!(var.vartype() as u32, vt);
    assert!(<T as VariantExt<F>>::is_decodable(&var));
    let back: T = <T as VariantExt<F>>::from_variant(var).unwrap();
    assert_eq!(v, back);
}

fn tagged(vt: u32, n3: Payload) -> Box<VariantRecord> {
    Box::new(VariantRecord {
        n1: Primary::Tagged(Tagged { vt: vt as u16, reserved1: 0, reserved2: 0, reserved3: 0, n3 }),
    })
}

fn assert_send<T: Send>() {}

fn assert_sync<T: Sync>() {}

#[test]
fn test_i64() {
    validate(1337i64, VT_I8);
}

#[test]
fn test_i32() {
    validate(1337i32, VT_I4);
}

#[test]
fn test_u8() {
    validate(137u8, VT_UI1);
}

#[test]
fn test_i16() {
    validate(1337i16, VT_I2);
}

#[test]
fn test_f32() {
    validate(F32Bits::from(1337.9f32.to_bits()), VT_R4);
    let var = VariantExt::<_>::into_variant(F32Bits::from(1337.9f32.to_bits())).unwrap();
    let back: F32Bits = VariantExt::<_>::from_variant(var).unwrap();
    assert_eq!(f32::from_bits(u32::from(back)), 1337.9f32);
}

#[test]
fn test_f64() {
    validate(F64Bits::from(1337.9f64.to_bits()), VT_R8);
    let var = VariantExt::<_>::into_variant(F64Bits::from(1337.9f64.to_bits())).unwrap();
    let back: F64Bits = VariantExt::<_>::from_variant(var).unwrap();
    assert_eq!(f64::from_bits(u64::from(back)), 1337.9f64);
}

#[test]
fn test_bool_t() {
    validate(VariantBool::from(true), VT_BOOL);
}

#[test]
fn test_bool_f() {
    validate(VariantBool::from(false), VT_BOOL);
}

#[test]
fn test_scode() {
    validate(SCode::from(137), VT_ERROR);
}

#[test]
fn test_cy() {
    validate(Currency::from(137), VT_CY);
}

#[test]
fn test_date() {
    validate(Date::from(137.7f64.to_bits()), VT_DATE);
    let var = VariantExt::<_>::into_variant(Date::from(137.7f64.to_bits())).unwrap();
    let back: Date = VariantExt::<_>::from_variant(var).unwrap();
    assert_eq!(f64::from_bits(u64::from(back)), 137.7f64);
}

#[test]
fn test_str() {
    validate(U16String::from_str("testing abc1267 ?Ťũřǐꝥꞔ"), VT_BSTR);
}

#[test]
fn test_box_u8() {
    validate(Box::new(139u8), VT_PUI1);
}

#[test]
fn test_box_i16() {
    validate(Box::new(139i16), VT_PI2);
}

#[test]
fn test_box_i32() {
    validate(Box::new(139i32), VT_PI4);
}

#[test]
fn test_box_i64() {
    validate(Box::new(139i64), VT_PI8);
}

#[test]
fn test_box_f32() {
    validate(Box::new(F32Bits::from(1337.9f32.to_bits())), VT_PR4);
}

#[test]
fn test_box_f64() {
    validate(Box::new(F64Bits::from(1337.9f64.to_bits())), VT_PR8);
}

#[test]
fn test_box_bool() {
    validate(Box::new(VariantBool::from(true)), VT_PBOOL);
}

#[test]
fn test_box_scode() {
    validate(Box::new(SCode::from(-50)), VT_PERROR);
}

#[test]
fn test_box_cy() {
    validate(Box::new(Currency::from(137)), VT_PCY);
}

#[test]
fn test_box_date() {
    validate(Box::new(Date::from((-10.333f64).to_bits())), VT_PDATE);
}

#[test]
fn test_i8() {
    validate(-119i8, VT_I1);
}

#[test]
fn test_u16() {
    validate(119u16, VT_UI2);
}

#[test]
fn test_u32() {
    validate(11976u32, VT_UI4);
}

#[test]
fn test_u64() {
    validate(11976u64, VT_UI8);
}

#[test]
fn int_wrapper() {
    validate(Int::from(13875), VT_INT);
}

#[test]
fn uint_wrapper() {
    validate(UInt::from(13875), VT_UINT);
}

#[test]
fn test_box_i8() {
    validate(Box::new(-119i8), VT_PI1);
}

#[test]
fn test_box_u16() {
    validate(Box::new(119u16), VT_PUI2);
}

#[test]
fn test_box_u32() {
    validate(Box::new(11976u32), VT_PUI4);
}

#[test]
fn test_box_u64() {
    validate(Box::new(11976u64), VT_PUI8);
}

#[test]
fn decimal() {
    validate(DecWrapper::from(Decimal::new(2, 2)), 0);
}

#[test]
fn variant() {
    let b = 156u8;
    let c = Variant::wrap(b);
    let v = VariantExt::<_>::into_variant(c).unwrap();
    let v: Variant<u8, u8> = VariantExt::<_>::from_variant(v).unwrap();
    let d = v.unwrap();
    assert_eq!(d, b);
}

#[test]
fn empty() {
    validate(VtEmpty, VT_EMPTY);
}

#[test]
fn null() {
    validate(VtNull, VT_NULL);
}

#[test]
fn variant_test_send() {
    assert_send::<Variant<i64, i64>>();
}

#[test]
fn variant_test_sync() {
    assert_sync::<Variant<i64, i64>>();
}

#[test]
fn scalar_records_are_exact() {
    let var = VariantExt::<_>::into_variant(-5i16).unwrap();
    assert_eq!(var, tagged(VT_I2, Payload::IVal(-5)));
    let var = VariantExt::<_>::into_variant(VariantBool::from(true)).unwrap();
    assert_eq!(var, tagged(VT_BOOL, Payload::BoolVal(-1)));
    let var = VariantExt::<_>::into_variant(VariantBool::from(false)).unwrap();
    assert_eq!(var, tagged(VT_BOOL, Payload::BoolVal(0)));
    let var = VariantExt::<_>::into_variant(Currency::from(250000)).unwrap();
    assert_eq!(var, tagged(VT_CY, Payload::CyVal(Cy { int64: 250000 })));
    let var = VariantExt::<_>::into_variant(Box::new(SCode::from(-50))).unwrap();
    assert_eq!(var, tagged(VT_PERROR, Payload::Pscode(Some(Box::new(-50)))));
    let var = VariantExt::<_>::into_variant(Box::new(UInt::from(9))).unwrap();
    assert_eq!(var, tagged(VT_PUINT, Payload::PuintVal(Some(Box::new(9)))));
    let var = VariantExt::<_>::into_variant(Box::new(Int::from(-9))).unwrap();
    assert_eq!(var, tagged(VT_PINT, Payload::PintVal(Some(Box::new(-9)))));
}

#[test]
fn type_tags_are_the_registered_ones() {
    assert_eq!(<i64 as VariantExt<i64>>::VARTYPE, 20);
    assert_eq!(<DecWrapper as VariantExt<DecimalRecord>>::VARTYPE, VT_DECIMAL);
    assert_eq!(<DecWrapper as VariantExt<DecimalRecord>>::VARTYPE, 14);
    assert_eq!(<Box<u8> as VariantExt<Option<Box<u8>>>>::VARTYPE, 0x4011);
    assert_eq!(<Vec<i32> as VariantExt<Option<Box<SafeArray>>>>::VARTYPE, 0x2000);
    assert_eq!(<Variant<u8, u8> as VariantExt<Option<Box<VariantRecord>>>>::VARTYPE, 12);
    assert_eq!(VT_PARRAY, 0x6000);
    assert_eq!(VT_BYREF, 0x4000);
}

#[test]
fn boolean_decodes_by_sign() {
    let back: VariantBool =
        VariantExt::<_>::from_variant(tagged(VT_BOOL, Payload::BoolVal(-1))).unwrap();
    assert_eq!(back, VariantBool::from(true));
    let back: VariantBool =
        VariantExt::<_>::from_variant(tagged(VT_BOOL, Payload::BoolVal(-300))).unwrap();
    assert_eq!(back, VariantBool::from(true));
    let back: VariantBool =
        VariantExt::<_>::from_variant(tagged(VT_BOOL, Payload::BoolVal(1))).unwrap();
    assert_eq!(back, VariantBool::from(false));
    let back: VariantBool =
        VariantExt::<_>::from_variant(tagged(VT_BOOL, Payload::BoolVal(0))).unwrap();
    assert_eq!(back, VariantBool::from(false));
}

#[test]
fn null_pointer_is_reported() {
    let r: Result<Box<u8>, FromVariantError> =
        VariantExt::<_>::from_variant(tagged(VT_PUI1, Payload::PbVal(None)));
    assert_eq!(r, Err(FromVariantError::VariantPtrNull));
    let r: Result<Box<Currency>, FromVariantError> =
        VariantExt::<_>::from_variant(tagged(VT_PCY, Payload::PcyVal(None)));
    assert_eq!(r, Err(FromVariantError::VariantPtrNull));
    let r: Result<Box<VariantBool>, FromVariantError> =
        VariantExt::<_>::from_variant(tagged(VT_PBOOL, Payload::PboolVal(None)));
    assert_eq!(r, Err(FromVariantError::VariantPtrNull));
    let r: Result<Box<DecWrapper>, FromVariantError> =
        VariantExt::<_>::from_variant(tagged(VT_PDECIMAL, Payload::PdecVal(None)));
    assert_eq!(r, Err(FromVariantError::VariantPtrNull));
    let r: Result<Box<U16String>, FromVariantError> =
        VariantExt::<_>::from_variant(tagged(VT_PBSTR, Payload::PbstrVal(None)));
    assert_eq!(r, Err(FromVariantError::VariantPtrNull));
    let r: Result<Ptr<IUnknown>, FromVariantError> =
        VariantExt::<_>::from_variant(tagged(VT_UNKNOWN, Payload::PunkVal(0)));
    assert_eq!(r, Err(FromVariantError::VariantPtrNull));
    let r: Result<Box<Ptr<IDispatch>>, FromVariantError> =
        VariantExt::<_>::from_variant(tagged(VT_PDISPATCH, Payload::PpdispVal(None)));
    assert_eq!(r, Err(FromVariantError::VariantPtrNull));
    let r: Result<Box<Ptr<IDispatch>>, FromVariantError> =
        VariantExt::<_>::from_variant(tagged(VT_PDISPATCH, Payload::PpdispVal(Some(Box::new(0)))));
    assert_eq!(r, Err(FromVariantError::VariantPtrNull));
    let r: Result<Variant<u8, u8>, FromVariantError> =
        VariantExt::<_>::from_variant(tagged(VT_VARIANT, Payload::PvarVal(None)));
    assert!(matches!(r, Err(FromVariantError::VariantPtrNull)));
    let r: Result<Vec<i32>, FromVariantError> =
        VariantExt::<_>::from_variant(tagged(VT_ARRAY, Payload::Parray(None)));
    assert_eq!(r, Err(FromVariantError::VariantPtrNull));
    let r: Result<Box<Vec<i32>>, FromVariantError> =
        VariantExt::<_>::from_variant(tagged(VT_PARRAY, Payload::Pparray(Some(Box::new(None)))));
    assert_eq!(r, Err(FromVariantError::VariantPtrNull));
}

#[test]
fn pointer_round_trips() {
    let p: Ptr<IUnknown> = Ptr::with_checked(0x1000).unwrap();
    let var = VariantExt::<_>::into_variant(p).unwrap();
    assert_eq!(var, tagged(VT_UNKNOWN, Payload::PunkVal(0x1000)));
    let back: Ptr<IUnknown> = VariantExt::<_>::from_variant(var).unwrap();
    assert_eq!(back.as_ptr(), 0x1000);

    let p: Ptr<IDispatch> = Ptr::with_checked(0x2000).unwrap();
    let var = VariantExt::<_>::into_variant(p).unwrap();
    assert_eq!(var.vartype() as u32, VT_DISPATCH);
    let back: Ptr<IDispatch> = VariantExt::<_>::from_variant(var).unwrap();
    assert_eq!(back.as_ptr(), 0x2000);

    let p: Ptr<Void> = Ptr::with_checked(0x3000).unwrap();
    let var = VariantExt::<_>::into_variant(p).unwrap();
    assert_eq!(var, tagged(VT_BYREF, Payload::Byref(0x3000)));
    let back: Ptr<Void> = VariantExt::<_>::from_variant(var).unwrap();
    assert_eq!(back.as_ptr(), 0x3000);

    let p: Box<Ptr<IUnknown>> = Box::new(Ptr::with_checked(0x4000).unwrap());
    let var = VariantExt::<_>::into_variant(p).unwrap();
    assert_eq!(var, tagged(VT_PUNKNOWN, Payload::PpunkVal(Some(Box::new(0x4000)))));
    let back: Box<Ptr<IUnknown>> = VariantExt::<_>::from_variant(var).unwrap();
    assert_eq!(back.as_ptr(), 0x4000);

    assert!(Ptr::<IUnknown>::with_checked(0).is_none());
}

#[test]
fn decimal_goes_around_the_union() {
    let var = VariantExt::<_>::into_variant(DecWrapper::from(Decimal::new(-12345, 3))).unwrap();
    assert_eq!(
        *var,
        VariantRecord {
            n1: Primary::Decimal(DecimalRecord {
                reserved: 0,
                scale: 3,
                sign: 0x80,
                hi32: 0,
                lo64: 12345
            })
        }
    );
    assert_eq!(var.vartype(), 0);
    let back: DecWrapper = VariantExt::<_>::from_variant(var).unwrap();
    assert_eq!(back.unwrap(), Decimal::new(-12345, 3));

    validate(Box::new(DecWrapper::from(Decimal::new(-12345, 3))), VT_PDECIMAL);
}

#[test]
fn decimal_record_with_bad_scale_is_reported() {
    let var = Box::new(VariantRecord {
        n1: Primary::Decimal(DecimalRecord { reserved: 0, scale: 29, sign: 0, hi32: 0, lo64: 1 }),
    });
    let r: Result<DecWrapper, FromVariantError> = VariantExt::<_>::from_variant(var);
    assert_eq!(r, Err(FromVariantError::DecimalScale));
    let inner = DecimalRecord { reserved: 0, scale: 200, sign: 0, hi32: 0, lo64: 1 };
    let r: Result<Box<DecWrapper>, FromVariantError> =
        VariantExt::<_>::from_variant(tagged(VT_PDECIMAL, Payload::PdecVal(Some(Box::new(inner)))));
    assert_eq!(r, Err(FromVariantError::DecimalScale));
}

#[test]
fn string_keeps_its_units() {
    let s = U16String::from_vec(vec![0xD800u16, 0x0041, 0x0000, 0xFFFF]);
    let var = VariantExt::<_>::into_variant(s.clone()).unwrap();
    assert_eq!(var.vartype() as u32, VT_BSTR);
    match &var.n1 {
        Primary::Tagged(t) => match &t.n3 {
            Payload::BstrVal(b) => {
                assert_eq!(b.units, vec![0xD800u16, 0x0041, 0x0000, 0xFFFF]);
            }
            _ => panic!("the string member is not the active one"),
        },
        _ => panic!("the record is not tagged"),
    }
    let back: U16String = VariantExt::<_>::from_variant(var).unwrap();
    assert_eq!(back, s);
    validate(U16String::new(), VT_BSTR);
    validate(Box::new(U16String::from_str("boxed")), VT_PBSTR);
}

#[test]
fn unit_payloads_store_nothing() {
    let var = VariantExt::<_>::into_variant(VtEmpty).unwrap();
    assert_eq!(var, tagged(VT_EMPTY, Payload::Zeroed));
    let var = VariantExt::<_>::into_variant(VtNull).unwrap();
    assert_eq!(var, tagged(VT_NULL, Payload::Zeroed));
    // nothing is read: any record decodes to the sentinel
    let back: VtEmpty = VariantExt::<_>::from_variant(tagged(VT_I4, Payload::LVal(5))).unwrap();
    assert_eq!(back, VtEmpty);
}

#[test]
fn nested_variant_points_at_the_inner_record() {
    let var = VariantExt::<_>::into_variant(Variant::wrap(156u8)).unwrap();
    assert_eq!(var, tagged(VT_VARIANT, Payload::PvarVal(Some(tagged(VT_UI1, Payload::BVal(156))))));
    let twice = Variant::wrap(Variant::<i32, i32>::wrap(-4));
    let var = VariantExt::<_>::into_variant(twice).unwrap();
    let back: Variant<Variant<i32, i32>, Option<Box<VariantRecord>>> =
        VariantExt::<_>::from_variant(var).unwrap();
    assert_eq!(back.unwrap().unwrap(), -4);
    let inner_null =
        tagged(VT_VARIANT, Payload::PvarVal(Some(tagged(VT_PI4, Payload::PlVal(None)))));
    let r: Result<Variant<Box<i32>, Option<Box<i32>>>, FromVariantError> =
        VariantExt::<_>::from_variant(inner_null);
    assert!(matches!(r, Err(FromVariantError::VariantPtrNull)));
}

#[test]
fn array_round_trip_empty() {
    validate(Vec::<i32>::new(), VT_ARRAY);
    let var = VariantExt::<_>::into_variant(Vec::<i32>::new()).unwrap();
    assert_eq!(
        var,
        tagged(VT_ARRAY, Payload::Parray(Some(Box::new(SafeArray { vartype: 3, cells: vec![] }))))
    );
}

#[test]
fn array_round_trip_one() {
    validate(vec![Currency::from(-1)], VT_ARRAY);
    let var = VariantExt::<_>::into_variant(vec![Currency::from(-1)]).unwrap();
    let cell = VariantRecord {
        n1: Primary::Tagged(Tagged {
            vt: 6,
            reserved1: 0,
            reserved2: 0,
            reserved3: 0,
            n3: Payload::CyVal(Cy { int64: -1 }),
        }),
    };
    assert_eq!(
        var,
        tagged(
            VT_ARRAY,
            Payload::Parray(Some(Box::new(SafeArray { vartype: 6, cells: vec![cell] })))
        )
    );
}

#[test]
fn array_round_trip_many() {
    validate(vec![3i16, -1, 4, -1, 5, -9, 2, 6], VT_ARRAY);
    validate((0u32..1000).collect::<Vec<u32>>(), VT_ARRAY);
    validate(
        vec![U16String::from_str("a"), U16String::new(), U16String::from_str("ccc")],
        VT_ARRAY,
    );
    validate(
        vec![DecWrapper::from(Decimal::new(1, 1)), DecWrapper::from(Decimal::new(-22, 2))],
        VT_ARRAY,
    );
    validate(vec![VariantBool::from(true), VariantBool::from(false)], VT_ARRAY);
    validate(Box::new(vec![Int::from(1), Int::from(-2), Int::from(3)]), VT_PARRAY);
    let var = VariantExt::<_>::into_variant(vec![7u8, 8, 9]).unwrap();
    let back: Vec<u8> = VariantExt::<_>::from_variant(var).unwrap();
    assert_eq!(back, vec![7u8, 8, 9]);
}

#[test]
fn array_of_variants_round_trip() {
    let values = vec![Variant::<i32, i32>::wrap(1), Variant::wrap(-2), Variant::wrap(3)];
    let var = VariantExt::<_>::into_variant(values).unwrap();
    let back: Vec<Variant<i32, i32>> = VariantExt::<_>::from_variant(var).unwrap();
    let inner: Vec<i32> = back.into_iter().map(|v| v.unwrap()).collect();
    assert_eq!(inner, vec![1, -2, 3]);
}

#[test]
fn array_reports_the_first_element_that_fails() {
    let good = tagged(
        VT_VARIANT,
        Payload::PvarVal(Some(tagged(VT_PI4, Payload::PlVal(Some(Box::new(1)))))),
    );
    let null = tagged(VT_VARIANT, Payload::PvarVal(Some(tagged(VT_PI4, Payload::PlVal(None)))));
    let bad_scale = DecimalRecord { reserved: 0, scale: 99, sign: 0, hi32: 0, lo64: 0 };
    let scale = tagged(VT_VARIANT, Payload::PvarVal(Some(tagged(
        VT_PDECIMAL,
        Payload::PdecVal(Some(Box::new(bad_scale))),
    ))));
    let array = SafeArray { vartype: VT_VARIANT as u16, cells: vec![*good, *null, *scale] };
    let r: Result<Vec<Variant<Box<i32>, Option<Box<i32>>>>, FromVariantError> =
        VariantExt::<_>::from_variant(tagged(VT_ARRAY, Payload::Parray(Some(Box::new(array)))));
    match r {
        Err(e) => assert_eq!(
            e,
            FromVariantError::ElementConversion(ElementError::From(Box::new(
                FromVariantError::VariantPtrNull
            )))
        ),
        Ok(_) => panic!("the null element was not reported"),
    }
}

#[test]
fn decodable_means_the_member_is_the_active_one() {
    let var = tagged(VT_I4, Payload::LVal(5));
    assert!(<i32 as VariantExt<i32>>::is_decodable(&var));
    assert!(!<i64 as VariantExt<i64>>::is_decodable(&var));
    assert!(!<Int as VariantExt<i32>>::is_decodable(&var));
    assert!(!<DecWrapper as VariantExt<DecimalRecord>>::is_decodable(&var));
    assert!(<VtEmpty as VariantExt<()>>::is_decodable(&var));
    // the tag is not consulted
    let var = tagged(VT_I8, Payload::LVal(5));
    assert!(<i32 as VariantExt<i32>>::is_decodable(&var));
    let dec = VariantRecord {
        n1: Primary::Decimal(DecimalRecord { reserved: 0, scale: 40, sign: 0, hi32: 0, lo64: 0 }),
    };
    assert!(<DecWrapper as VariantExt<DecimalRecord>>::is_decodable(&dec));
    assert!(!<i32 as VariantExt<i32>>::is_decodable(&dec));
    // a null pointer can be decoded: it is reported
    let var = tagged(VT_PI4, Payload::PlVal(None));
    assert!(<Box<i32> as VariantExt<Option<Box<i32>>>>::is_decodable(&var));
    // a nested record has to be decodable too
    let var = tagged(VT_VARIANT, Payload::PvarVal(Some(tagged(VT_I4, Payload::LVal(5)))));
    assert!(<Variant<i32, i32> as VariantExt<Option<Box<VariantRecord>>>>::is_decodable(&var));
    assert!(!<Variant<u8, u8> as VariantExt<Option<Box<VariantRecord>>>>::is_decodable(&var));
    // and so has every cell of an array
    let cells = vec![*tagged(VT_I4, Payload::LVal(5)), *tagged(VT_I4, Payload::IVal(5))];
    let var = tagged(VT_ARRAY, Payload::Parray(Some(Box::new(SafeArray { vartype: 3, cells }))));
    assert!(!<Vec<i32> as VariantExt<Option<Box<SafeArray>>>>::is_decodable(&var));
    let cells = vec![*tagged(VT_I4, Payload::LVal(5)), *tagged(VT_I4, Payload::LVal(6))];
    let var = tagged(VT_ARRAY, Payload::Parray(Some(Box::new(SafeArray { vartype: 3, cells }))));
    assert!(<Vec<i32> as VariantExt<Option<Box<SafeArray>>>>::is_decodable(&var));
    let back: Vec<i32> = VariantExt::<_>::from_variant(var).unwrap();
    assert_eq!(back, vec![5, 6]);
}

#[test]
fn release_is_idempotent() {
    let mut guard = VariantDestructor::new(Some(tagged(VT_I4, Payload::LVal(5))));
    assert!(!guard.is_null());
    guard.release();
    assert!(guard.is_null());
    guard.release();
    assert!(guard.is_null());
    guard.release();
    assert!(guard.is_null());

    let mut empty = VariantDestructor::new(None);
    assert!(empty.is_null());
    empty.release();
    assert!(empty.is_null());
}

#[test]
fn guard_hands_out_the_halves_and_keeps_an_empty_record() {
    let mut guard = VariantDestructor::new(Some(tagged(VT_BSTR, Payload::LVal(5))));
    let (n1, n3) = guard.halves();
    assert_eq!(n3, Payload::LVal(5));
    assert_eq!(
        n1,
        Primary::Tagged(Tagged {
            vt: 8,
            reserved1: 0,
            reserved2: 0,
            reserved3: 0,
            n3: Payload::Zeroed
        })
    );
    assert!(!guard.is_null());
    let (n1, n3) = guard.halves();
    assert_eq!(n1, Primary::zeroed());
    assert_eq!(n3, Payload::Zeroed);
    guard.release();
    assert!(guard.is_null());
}

#[test]
fn record_clear_leaves_the_empty_record() {
    let mut var = tagged(VT_PUI8, Payload::PullVal(Some(Box::new(9))));
    var.clear();
    assert_eq!(var, tagged(VT_EMPTY, Payload::Zeroed));
    assert_eq!(var.vartype(), 0);
}

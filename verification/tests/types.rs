use oaidl::decimal::{DecimalRecord, DECIMAL_NEG};
use oaidl::types::{
    Currency, Cy, Date, DecWrapper, F32Bits, F64Bits, Int, SCode, UInt, VariantBool, VARIANT_TRUE,
};
use rust_decimal::Decimal;

fn assert_send<T: Send>() {}

fn assert_sync<T: Sync>() {}

#[test]
fn c_decimal() {
    let d = Decimal::new(0xFFFFFFFFFFFF, 0);
    let d = d * Decimal::new(0xFFFFFFFF, 0);
    assert_eq!(d.is_sign_positive(), true);
    assert_eq!(format!("{}", d), "1208925819333149903028225");

    let c = DecWrapper::build_c_decimal(d);
    assert_eq!(c.hi32, 65535);
    assert_eq!(c.lo64, 18446462594437873665);
    assert_eq!(c.scale, 0);
    assert_eq!(c.sign, 0);
}

#[test]
fn rust_decimal_from() {
    let d = DecimalRecord {
        reserved: 0,
        scale: 0,
        sign: 0,
        hi32: 65535,
        lo64: 18446462594437873665,
    };
    let new_d = DecWrapper::build_rust_decimal(d);
    assert_eq!(format!("{}", new_d), "1208925819333149903028225");
}

#[test]
fn variant_bool() {
    let vb = VariantBool::from(true);
    let pvb = i16::from(vb);
    assert_eq!(VARIANT_TRUE, pvb);

    let vb = VariantBool::from(false);
    let pvb = i16::from(vb);
    assert_ne!(VARIANT_TRUE, pvb);
}

#[test]
fn types_test_send() {
    assert_send::<Currency>();
    assert_send::<Date>();
    assert_send::<DecWrapper>();
    assert_send::<Int>();
    assert_send::<SCode>();
    assert_send::<UInt>();
    assert_send::<VariantBool>();
}

#[test]
fn types_test_sync() {
    assert_sync::<Currency>();
    assert_sync::<Date>();
    assert_sync::<DecWrapper>();
    assert_sync::<Int>();
    assert_sync::<SCode>();
    assert_sync::<UInt>();
    assert_sync::<VariantBool>();
}

#[test]
fn test_tryfrom() {
    let v = Int::try_from(999999999999999i64);
    assert!(v.is_err());
}

#[test]
fn int_try_from_keeps_what_fits() {
    assert_eq!(Int::try_from(2147483647i64).unwrap(), Int::from(2147483647));
    assert_eq!(Int::try_from(-2147483648i64).unwrap(), Int::from(-2147483648));
    assert!(Int::try_from(2147483648i64).is_err());
    assert!(Int::try_from(-2147483649i64).is_err());
    assert!(Int::try_from(1i128 << 40).is_err());
    assert_eq!(Int::try_from(-7i128).unwrap(), Int::from(-7));
    assert_eq!(Int::try_from(-300i16).unwrap(), Int::from(-300));
    assert_eq!(Int::try_from(-3i8).unwrap(), Int::from(-3));
}

#[test]
fn uint_try_from_keeps_what_fits() {
    assert_eq!(UInt::try_from(4294967295u64).unwrap(), UInt::from(4294967295));
    assert!(UInt::try_from(4294967296u64).is_err());
    assert!(UInt::try_from(1u128 << 100).is_err());
    assert_eq!(UInt::try_from(77u128).unwrap(), UInt::from(77));
    assert_eq!(UInt::try_from(65535u16).unwrap(), UInt::from(65535));
    assert_eq!(UInt::try_from(255u8).unwrap(), UInt::from(255));
}

#[test]
fn bool_codes() {
    assert_eq!(i16::from(VariantBool::from(true)), -1);
    assert_eq!(i16::from(VariantBool::from(true)) as u16, 0xFFFF);
    assert_eq!(i16::from(VariantBool::from(false)), 0);
    assert_eq!(i16::from(&VariantBool::from(true)), -1);
    let mut vb = VariantBool::from(false);
    assert_eq!(i16::from(&mut vb), 0);
    assert_eq!(VariantBool::from(-1i16), VariantBool::from(true));
    assert_eq!(VariantBool::from(-32768i16), VariantBool::from(true));
    assert_eq!(VariantBool::from(-2i16), VariantBool::from(true));
    assert_eq!(VariantBool::from(0i16), VariantBool::from(false));
    assert_eq!(VariantBool::from(1i16), VariantBool::from(false));
    assert_eq!(VariantBool::from(32767i16), VariantBool::from(false));
    assert_eq!(bool::from(VariantBool::from(&true)), true);
    assert_eq!(*VariantBool::from(true).as_ref(), true);
}

#[test]
fn currency_is_carried_as_given() {
    let c = Currency::from(12345678i64);
    assert_eq!(i64::from(c), 12345678);
    assert_eq!(Cy::from(c), Cy { int64: 12345678 });
    assert_eq!(Currency::from(Cy { int64: -10000 }), Currency::from(-10000i64));
    assert_eq!(Currency::from(&Cy { int64: i64::MIN }), Currency::from(i64::MIN));
    let mut raw = 5i64;
    assert_eq!(Currency::from(&mut raw), Currency::from(5i64));
    assert_eq!(raw, 5);
    assert_eq!(*c.as_ref(), 12345678);
}

#[test]
fn plain_wrappers_give_back_what_they_took() {
    assert_eq!(i32::from(SCode::from(-50)), -50);
    assert_eq!(i32::from(Int::from(13875)), 13875);
    assert_eq!(u32::from(UInt::from(13875)), 13875);
    assert_eq!(u64::from(Date::from(137.7f64.to_bits())), 137.7f64.to_bits());
    assert_eq!(f64::from_bits(u64::from(Date::from(137.7f64.to_bits()))), 137.7f64);
    assert_eq!(f32::from_bits(u32::from(F32Bits::from(1337.9f32.to_bits()))), 1337.9f32);
    assert_eq!(f64::from_bits(u64::from(F64Bits::from(1337.9f64.to_bits()))), 1337.9f64);
    assert_eq!(*SCode::from(7).as_ref(), 7);
    assert_eq!(*Int::from(-7).as_ref(), -7);
    assert_eq!(*UInt::from(7).as_ref(), 7);
}

#[test]
fn decimal_packs_scale_and_sign() {
    let c = DecWrapper::build_c_decimal(Decimal::new(-12345, 3));
    assert_eq!(c, DecimalRecord { reserved: 0, scale: 3, sign: DECIMAL_NEG, hi32: 0, lo64: 12345 });
    let c = DecWrapper::build_c_decimal(Decimal::new(2, 2));
    assert_eq!(c, DecimalRecord { reserved: 0, scale: 2, sign: 0, hi32: 0, lo64: 2 });
    let c = DecWrapper::build_c_decimal(Decimal::from_parts(1, 2, 3, true, 28));
    assert_eq!(
        c,
        DecimalRecord { reserved: 0, scale: 28, sign: 0x80, hi32: 3, lo64: (2u64 << 32) + 1 }
    );
    let c = DecWrapper::build_c_decimal(Decimal::MAX);
    assert_eq!(
        c,
        DecimalRecord { reserved: 0, scale: 0, sign: 0, hi32: u32::MAX, lo64: u64::MAX }
    );
}

#[test]
fn decimal_unpacks_each_part() {
    let d = DecWrapper::build_rust_decimal(DecimalRecord {
        reserved: 0,
        scale: 3,
        sign: DECIMAL_NEG,
        hi32: 0,
        lo64: 12345,
    });
    assert_eq!(d, Decimal::new(-12345, 3));
    assert_eq!(format!("{}", d), "-12.345");
    let d = DecWrapper::build_rust_decimal(DecimalRecord {
        reserved: 0,
        scale: 28,
        sign: 0,
        hi32: 1703060790,
        lo64: (185874565u64 << 32) + 1102470952,
    });
    assert_eq!(format!("{}", d), "3.1415926535897932384626433832");
    // any sign byte but the sentinel reads as non-negative
    let d = DecWrapper::build_rust_decimal(DecimalRecord {
        reserved: 0,
        scale: 0,
        sign: 1,
        hi32: 0,
        lo64: 9,
    });
    assert_eq!(d, Decimal::new(9, 0));
    // a zero magnitude is never negative
    let d = DecWrapper::build_rust_decimal(DecimalRecord {
        reserved: 0,
        scale: 2,
        sign: DECIMAL_NEG,
        hi32: 0,
        lo64: 0,
    });
    assert!(d.is_sign_positive());
    assert_eq!(d.scale(), 2);
}

#[test]
fn decimal_unpack_pack_unpack() {
    let records = [
        DecimalRecord { reserved: 0, scale: 0, sign: 0, hi32: 65535, lo64: 18446462594437873665 },
        DecimalRecord { reserved: 0, scale: 28, sign: DECIMAL_NEG, hi32: u32::MAX, lo64: u64::MAX },
        DecimalRecord { reserved: 0, scale: 7, sign: DECIMAL_NEG, hi32: 0, lo64: 0 },
        DecimalRecord { reserved: 0, scale: 13, sign: 0, hi32: 1, lo64: 1 << 32 },
        DecimalRecord { reserved: 0, scale: 1, sign: 0x7f, hi32: 0, lo64: 0xFFFF_FFFF },
    ];
    for fields in records.iter() {
        let first = DecWrapper::build_rust_decimal(*fields);
        let packed = DecWrapper::build_c_decimal(first);
        let second = DecWrapper::build_rust_decimal(packed);
        assert_eq!(first.serialize(), second.serialize());
        assert_eq!(packed.scale, fields.scale);
        assert_eq!(packed.hi32, fields.hi32);
        assert_eq!(packed.lo64, fields.lo64);
    }
}

#[test]
fn decimal_wrapper_conversions() {
    let d = Decimal::new(-31415, 4);
    let w = DecWrapper::new(d);
    assert_eq!(w, DecWrapper::from(d));
    assert_eq!(w, DecWrapper::from(&d));
    assert_eq!(*w.borrow(), d);
    assert_eq!(*w.as_ref(), d);
    assert_eq!(Decimal::from(w), d);
    assert_eq!(w.unwrap(), d);
    let mut w = DecWrapper::new(d);
    *w.borrow_mut() = Decimal::new(7, 0);
    assert_eq!(w.unwrap(), Decimal::new(7, 0));
    let record = DecimalRecord::from(DecWrapper::new(d));
    assert_eq!(
        record,
        DecimalRecord { reserved: 0, scale: 4, sign: DECIMAL_NEG, hi32: 0, lo64: 31415 }
    );
    assert_eq!(DecWrapper::try_from(record).unwrap(), DecWrapper::new(d));
    assert_eq!(DecWrapper::from_record(record), DecWrapper::new(d));
    assert_eq!(DecimalRecord::from(&DecWrapper::new(d)), record);
}

#[test]
fn decimal_scale_out_of_range_is_reported() {
    let record = DecimalRecord { reserved: 0, scale: 29, sign: 0, hi32: 0, lo64: 1 };
    assert_eq!(DecWrapper::try_from(record), Err(oaidl::FromVariantError::DecimalScale));
    let record = DecimalRecord { reserved: 0, scale: 255, sign: 0, hi32: 0, lo64: 1 };
    assert_eq!(DecWrapper::try_from(record), Err(oaidl::FromVariantError::DecimalScale));
    let record = DecimalRecord { reserved: 0, scale: 28, sign: 0, hi32: 0, lo64: 1 };
    assert!(DecWrapper::try_from(record).is_ok());
}

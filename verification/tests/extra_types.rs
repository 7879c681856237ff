use psqlpy::errors::RustPSQLDriverError;
use psqlpy::extra_types::{BigInt, CustomType, Integer, MacAddr6, MacAddr8, Money, SmallInt, Text, VarChar};
use psqlpy::parameters::{extract_parameters, missing_parameter_error, parameters_layout, Column, ParametersLayout};

#[test]
fn integer_wrappers() {
    assert_eq!(SmallInt::new_class(-5).inner(), -5);
    assert_eq!(SmallInt::new_class(-5).__str__(), "SmallInt, -5");
    assert_eq!(Integer::new_class(7).__str__(), "Integer, 7");
    assert_eq!(Integer::new_class(i32::MIN).inner(), i32::MIN);
    assert_eq!(BigInt::new_class(i64::MAX).__str__(), format!("BigInt, {}", i64::MAX));
    assert_eq!(Money::new_class(-100).__str__(), "Money, -100");
    assert_eq!(Money::new_class(0).inner(), 0);
}

#[test]
fn text_wrappers() {
    assert_eq!(Text::new_pytext("hello".into()).inner(), "hello");
    assert_eq!(VarChar::new_varchar("v".into()).inner(), "v");
    assert_eq!(CustomType::new_class(vec![1, 2, 3]).inner(), vec![1, 2, 3]);
}

#[test]
fn mac_addresses() {
    let a = MacAddr6::new_class("08:00:2b:01:02:03").unwrap();
    assert_eq!(a.inner(), [0x08, 0x00, 0x2b, 0x01, 0x02, 0x03]);
    let b = MacAddr6::new_class("08-00-2B-01-02-03").unwrap();
    assert_eq!(b.inner(), [0x08, 0x00, 0x2b, 0x01, 0x02, 0x03]);
    assert!(matches!(
        MacAddr6::new_class("not a mac"),
        Err(RustPSQLDriverError::RustMacAddrConversionError(_))
    ));
    let d = MacAddr6::new_class(".0800.2b01.0203").unwrap();
    assert_eq!(d.inner(), [0x08, 0x00, 0x2b, 0x01, 0x02, 0x03]);
    assert!(matches!(
        MacAddr6::new_class("08:00-2b:01:02:03"),
        Err(RustPSQLDriverError::RustMacAddrConversionError(_))
    ));
    assert!(matches!(
        MacAddr6::new_class("08:00:2b:01:02:03\n"),
        Err(RustPSQLDriverError::RustMacAddrConversionError(_))
    ));
    assert!(matches!(
        MacAddr6::new_class("08:00:2b:01:02:0"),
        Err(RustPSQLDriverError::RustMacAddrConversionError(_))
    ));
    let c = MacAddr8::new_class("08:00:2b:01:02:03:04:05").unwrap();
    assert_eq!(c.inner(), [0x08, 0x00, 0x2b, 0x01, 0x02, 0x03, 0x04, 0x05]);
    assert!(matches!(
        MacAddr8::new_class("08:00:2b:01:02:03"),
        Err(RustPSQLDriverError::RustMacAddrConversionError(_))
    ));
}

#[test]
fn columns_keep_their_fields() {
    let c = Column::new("id".into(), Some(16384));
    assert_eq!(c.get_name(), "id");
    assert_eq!(c.get_table_oid(), Some(16384));
    assert_eq!(Column::new("x".into(), None).get_table_oid(), None);
}

#[test]
fn parameter_layouts() {
    assert_eq!(parameters_layout(true, false, false, false).unwrap(), ParametersLayout::Empty);
    assert_eq!(parameters_layout(false, true, false, false).unwrap(), ParametersLayout::Sequence);
    assert_eq!(parameters_layout(false, false, true, true).unwrap(), ParametersLayout::Mapping);
    match parameters_layout(false, false, true, false) {
        Err(RustPSQLDriverError::PyToRustValueConversionError(m)) => {
            assert_eq!(m, "Parameters must be sequence or mapping")
        }
        other => panic!("unexpected {:?}", other),
    }
    assert!(parameters_layout(false, false, false, true).is_err());
}

#[test]
fn named_parameters_are_found_by_name() {
    let names = vec!["b".to_string(), "a".to_string(), "b".to_string()];
    let keys = vec!["a".to_string(), "b".to_string(), "c".to_string()];
    assert_eq!(extract_parameters(&names, &keys).unwrap(), vec![1, 0, 1]);
    assert_eq!(extract_parameters(&vec![], &keys).unwrap(), Vec::<usize>::new());
    let missing = vec!["a".to_string(), "zz".to_string(), "yy".to_string()];
    match extract_parameters(&missing, &keys) {
        Err(RustPSQLDriverError::PyToRustValueConversionError(m)) => {
            assert_eq!(m, "Cannot find parameter with name <zz>")
        }
        other => panic!("unexpected {:?}", other),
    }
    match missing_parameter_error("q") {
        RustPSQLDriverError::PyToRustValueConversionError(m) => assert_eq!(m, "Cannot find parameter with name <q>"),
        other => panic!("unexpected {:?}", other),
    }
}

#[test]
fn mac_addresses_from_the_wire() {
    let a = MacAddr6::from_sql(&[0x08, 0x00, 0x2b, 0x01, 0x02, 0x03]).unwrap();
    assert_eq!(a.to_text(), "08:00:2B:01:02:03");
    assert_eq!(a.to_text(), macaddr::MacAddr6::new(0x08, 0x00, 0x2b, 0x01, 0x02, 0x03).to_string());
    assert_eq!(
        MacAddr6::from_sql(&[1, 2, 3]).unwrap_err(),
        "Cannot convert PostgreSQL MACADDR into rust MacAddr6"
    );
    let b = MacAddr8::from_sql(&[0xff, 0, 1, 2, 3, 4, 5, 0xab]).unwrap();
    assert_eq!(b.to_text(), "FF:00:01:02:03:04:05:AB");
    assert_eq!(b.to_text(), macaddr::MacAddr8::new(0xff, 0, 1, 2, 3, 4, 5, 0xab).to_string());
    assert_eq!(
        MacAddr8::from_sql(&[0; 6]).unwrap_err(),
        "Cannot convert PostgreSQL MACADDR8 into rust MacAddr8"
    );
}

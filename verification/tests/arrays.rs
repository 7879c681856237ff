use psqlpy::arrays::{array_to_nested, check_array_shape, nest_array, ArrayToken};
use psqlpy::errors::RustPSQLDriverError;

use ArrayToken::{Close, Item, Open};

fn be(x: i32) -> [u8; 4] {
    x.to_be_bytes()
}

/// A binary array with these dimension lengths and `int4` elements.
fn int4_array(dims: &[i32], values: &[Option<i32>]) -> Vec<u8> {
    let mut out = Vec::new();
    out.extend_from_slice(&be(dims.len() as i32));
    out.extend_from_slice(&be(i32::from(values.iter().any(|v| v.is_none()))));
    out.extend_from_slice(&23u32.to_be_bytes());
    for d in dims {
        out.extend_from_slice(&be(*d));
        out.extend_from_slice(&be(1));
    }
    for v in values {
        match v {
            Some(x) => {
                out.extend_from_slice(&be(4));
                out.extend_from_slice(&be(*x));
            }
            None => out.extend_from_slice(&be(-1)),
        }
    }
    out
}

#[test]
fn two_dimensional_shape() {
    assert_eq!(
        nest_array(&vec![2, 3], 6),
        vec![Open, Open, Item(0), Item(1), Item(2), Close, Open, Item(3), Item(4), Item(5), Close, Close]
    );
}

#[test]
fn one_dimensional_shape() {
    assert_eq!(nest_array(&vec![3], 3), vec![Open, Item(0), Item(1), Item(2), Close]);
}

#[test]
fn shapes_stop_when_elements_run_out() {
    assert_eq!(
        nest_array(&vec![2, 3], 4),
        vec![Open, Open, Item(0), Item(1), Item(2), Close, Open, Item(3), Close, Close]
    );
    assert_eq!(nest_array(&vec![], 0), vec![Open, Close]);
    assert_eq!(nest_array(&vec![0], 0), vec![Open, Close]);
    assert_eq!(nest_array(&vec![2, 0], 0), vec![Open, Close]);
}

#[test]
fn three_dimensional_shape_flattens_in_order() {
    let tokens = nest_array(&vec![2, 2, 2], 8);
    let items: Vec<usize> = tokens
        .iter()
        .filter_map(|t| match t {
            Item(p) => Some(*p),
            _ => None,
        })
        .collect();
    assert_eq!(items, (0..8).collect::<Vec<usize>>());
    assert_eq!(tokens.iter().filter(|t| **t == Open).count(), 7);
    assert_eq!(tokens.iter().filter(|t| **t == Close).count(), 7);
}

#[test]
fn binary_arrays_are_read() {
    let raw = int4_array(&[2, 2], &[Some(1), Some(2), None, Some(4)]);
    let a = array_to_nested(&raw, "_int4").unwrap();
    assert_eq!(a.element_oid, 23);
    assert_eq!(a.tokens, vec![Open, Open, Item(0), Item(1), Close, Open, Item(2), Item(3), Close, Close]);
    assert_eq!(a.elements.len(), 4);
    assert_eq!(a.elements[0], Some(1i32.to_be_bytes().to_vec()));
    assert_eq!(a.elements[2], None);
    let empty = array_to_nested(&int4_array(&[], &[]), "_int4").unwrap();
    assert_eq!(empty.tokens, vec![Open, Close]);
    assert!(empty.elements.is_empty());
}

#[test]
fn malformed_arrays_are_refused() {
    match array_to_nested(&[0, 0, 0], "_int4") {
        Err(RustPSQLDriverError::RustToPyValueConversionError(m)) => {
            assert!(m.starts_with("Cannot convert PostgreSQL type _int4 into Python type, err: "));
            assert!(m.len() > "Cannot convert PostgreSQL type _int4 into Python type, err: ".len());
        }
        _ => panic!("expected a conversion error"),
    }
    let mut bad_dims = Vec::new();
    bad_dims.extend_from_slice(&be(1));
    bad_dims.extend_from_slice(&be(0));
    bad_dims.extend_from_slice(&23u32.to_be_bytes());
    bad_dims.extend_from_slice(&be(-2));
    bad_dims.extend_from_slice(&be(1));
    match array_to_nested(&bad_dims, "_int4") {
        Err(RustPSQLDriverError::RustToPyValueConversionError(m)) => {
            assert_eq!(m, "Cannot convert PostgreSQL type _int4 into Python type, err: invalid dimension size")
        }
        _ => panic!("expected a conversion error"),
    }
    let mut bad_count = Vec::new();
    bad_count.extend_from_slice(&be(-1));
    bad_count.extend_from_slice(&be(0));
    bad_count.extend_from_slice(&23u32.to_be_bytes());
    match array_to_nested(&bad_count, "_text") {
        Err(RustPSQLDriverError::RustToPyValueConversionError(m)) => {
            assert_eq!(m, "Cannot convert PostgreSQL type _text into Python type, err: invalid dimension count")
        }
        _ => panic!("expected a conversion error"),
    }
}

#[test]
fn array_shape_must_match_the_element_count() {
    assert!(check_array_shape(&vec![2, 3], 6).is_ok());
    assert!(check_array_shape(&vec![4], 4).is_ok());
    assert!(check_array_shape(&vec![3, 0, 7], 0).is_ok());
    assert!(check_array_shape(&vec![usize::MAX, 0], 0).is_ok());
    match check_array_shape(&vec![2, 3], 5) {
        Err(RustPSQLDriverError::PyToRustValueConversionError(m)) => assert_eq!(
            m,
            "Cannot convert python sequence to PostgreSQL ARRAY, error - the dimensions do not match the number of elements"
        ),
        _ => panic!("expected a conversion error"),
    }
    assert!(check_array_shape(&vec![usize::MAX, 2], 3).is_err());
}

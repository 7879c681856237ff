use psqlpy::errors::RustPSQLDriverError;
use psqlpy::records::{__repr__, name_position, record_position, slice_positions, RecordDesc, RecordKeyError};

fn names(v: &[&str]) -> Vec<String> {
    v.iter().map(|s| s.to_string()).collect()
}

#[test]
fn descriptor_refuses_duplicate_names() {
    match RecordDesc::from_names(&names(&["a", "b", "a"])) {
        Err(RustPSQLDriverError::ConnectionExecuteError(m)) => assert_eq!(
            m,
            "Duplicate column name 'a' in result set; use positional indexing or aliases"
        ),
        _ => panic!("expected a duplicate-name error"),
    }
    let d = RecordDesc::from_names(&names(&["id", "name"])).unwrap();
    assert_eq!(d.len(), 2);
    assert_eq!(d.keys(), names(&["id", "name"]));
    assert_eq!(d.index_of("name"), Some(1));
    assert_eq!(d.index_of("nope"), None);
    assert_eq!(RecordDesc::from_names(&vec![]).unwrap().len(), 0);
}

#[test]
fn integer_keys() {
    assert_eq!(record_position(3, 0).unwrap(), 0);
    assert_eq!(record_position(3, 2).unwrap(), 2);
    assert_eq!(record_position(3, -1).unwrap(), 2);
    assert_eq!(record_position(3, -3).unwrap(), 0);
    match record_position(3, 3) {
        Err(RecordKeyError::IndexOutOfRange(m)) => assert_eq!(m, "Record index 3 out of range"),
        other => panic!("unexpected {:?}", other),
    }
    match record_position(3, -4) {
        Err(RecordKeyError::IndexOutOfRange(m)) => assert_eq!(m, "Record index -4 out of range"),
        other => panic!("unexpected {:?}", other),
    }
    assert!(record_position(0, 0).is_err());
}

#[test]
fn name_keys() {
    let d = RecordDesc::from_names(&names(&["id", "name"])).unwrap();
    assert_eq!(name_position(&d, "id").unwrap(), 0);
    match name_position(&d, "missing") {
        Err(RecordKeyError::UnknownName(m)) => assert_eq!(m, "missing"),
        other => panic!("unexpected {:?}", other),
    }
}

#[test]
fn slice_keys() {
    // values[1:4] of 5 values
    assert_eq!(slice_positions(1, 4, 1, 5), vec![1, 2, 3]);
    // values[::2]
    assert_eq!(slice_positions(0, 5, 2, 5), vec![0, 2, 4]);
    // values[::-1] (indices gives start 4, stop -1)
    assert_eq!(slice_positions(4, -1, -1, 5), vec![4, 3, 2, 1, 0]);
    // values[3:1:-1]
    assert_eq!(slice_positions(3, 1, -1, 5), vec![3, 2]);
    // empty slices
    assert_eq!(slice_positions(3, 1, 1, 5), Vec::<usize>::new());
    assert_eq!(slice_positions(0, 0, 1, 0), Vec::<usize>::new());
    // a step larger than the record
    assert_eq!(slice_positions(2, 5, isize::MAX, 5), vec![2]);
    assert_eq!(slice_positions(2, -1, isize::MIN, 5), vec![2]);
}

#[test]
fn record_repr() {
    assert_eq!(
        __repr__(&names(&["id", "name"]), &names(&["1", "'x'"])),
        "<Record id: 1, name: 'x'>"
    );
    assert_eq!(__repr__(&vec![], &vec![]), "<Record >");
    assert_eq!(__repr__(&names(&["a", "b"]), &names(&["1"])), "<Record a: 1>");
}

use xapian_rusty::{ErrorKind, FaultTable, XError};

#[test]
fn standard_table_is_the_standard_mapping() {
    let table = FaultTable::standard();
    for code in i8::MIN..=i8::MAX {
        assert_eq!(table.lookup(code), ErrorKind::from_code(code));
    }
}

#[test]
fn empty_table_knows_nothing() {
    let table = FaultTable::new();
    for code in i8::MIN..=i8::MAX {
        assert_eq!(table.lookup(code), ErrorKind::Unknown);
    }
}

#[test]
fn set_changes_one_entry() {
    let mut table = FaultTable::standard();
    table.set(-8, ErrorKind::Logic);
    assert_eq!(table.lookup(-8), ErrorKind::Logic);
    for code in i8::MIN..=i8::MAX {
        if code != -8 {
            assert_eq!(table.lookup(code), ErrorKind::from_code(code));
        }
    }
}

#[test]
fn set_at_the_ends_of_the_range() {
    let mut table = FaultTable::new();
    table.set(i8::MIN, ErrorKind::Runtime);
    table.set(i8::MAX, ErrorKind::Network);
    assert_eq!(table.lookup(i8::MIN), ErrorKind::Runtime);
    assert_eq!(table.lookup(i8::MAX), ErrorKind::Network);
    assert_eq!(table.lookup(0), ErrorKind::Unknown);
}

#[test]
fn later_entry_wins() {
    let mut table = FaultTable::standard();
    table.set(-6, ErrorKind::DatabaseOpening);
    table.set(-6, ErrorKind::DatabaseLock);
    assert_eq!(table.lookup(-6), ErrorKind::DatabaseLock);
}

#[test]
fn renumbered_engine() {
    let mut table = FaultTable::new();
    table.set(-21, ErrorKind::Range);
    table.set(-22, ErrorKind::Serialisation);
    assert_eq!(table.kind_of_error(&XError::Xapian(-21)), ErrorKind::Range);
    assert_eq!(table.kind_of_error(&XError::Xapian(-22)), ErrorKind::Serialisation);
    assert_eq!(XError::Xapian(-21).kind(), ErrorKind::Serialisation);
}

#[test]
fn host_error_is_a_host_error_by_every_table() {
    let error = XError::Io(std::io::Error::new(std::io::ErrorKind::Other, "disk"));
    assert_eq!(FaultTable::new().kind_of_error(&error), ErrorKind::Io);
    assert_eq!(FaultTable::standard().kind_of_error(&error), ErrorKind::Io);
}

use xapian_rusty::{Document, ErrorKind, Stem, TermGenerator, XError};

#[test]
fn document_creation() {
    let mut document = Document::new(String::from("doc"), 0).unwrap();
    assert_eq!(document.native_mut().as_str(), "doc");
    assert!(matches!(Document::new(String::new(), -15), Err(XError::Xapian(-15))));
    assert!(matches!(Document::new(String::new(), 2), Err(XError::Xapian(2))));
}

#[test]
fn document_native_can_be_worked_on() {
    let mut document = Document::new(vec![0u8], 0).unwrap();
    document.native_mut().push(1);
    assert_eq!(*document.native_mut(), vec![0u8, 1]);
}

#[test]
fn document_writes_succeed_on_zero() {
    let document = Document::new(0u8, 0).unwrap();
    assert!(document.add_string(0).is_ok());
    assert!(document.add_int(0).is_ok());
    assert!(document.add_long(0).is_ok());
    assert!(document.add_double(0).is_ok());
    assert!(document.set_data(0).is_ok());
    assert!(document.add_boolean_term(0).is_ok());
}

#[test]
fn document_writes_fail_on_every_other_code() {
    let document = Document::new(0u8, 0).unwrap();
    assert!(matches!(document.add_string(-1), Err(XError::Xapian(-1))));
    assert!(matches!(document.add_int(-2), Err(XError::Xapian(-2))));
    assert!(matches!(document.add_long(-3), Err(XError::Xapian(-3))));
    assert!(matches!(document.add_double(-4), Err(XError::Xapian(-4))));
    assert!(matches!(document.set_data(-5), Err(XError::Xapian(-5))));
    assert!(matches!(document.add_boolean_term(-1), Err(XError::Xapian(-1))));
    assert!(matches!(document.add_string(1), Err(XError::Xapian(1))));
    assert!(matches!(document.add_int(1), Err(XError::Xapian(1))));
    assert!(matches!(document.add_long(1), Err(XError::Xapian(1))));
    assert!(matches!(document.add_double(1), Err(XError::Xapian(1))));
    assert!(matches!(document.set_data(1), Err(XError::Xapian(1))));
    assert!(matches!(document.add_boolean_term(127), Err(XError::Xapian(127))));
    assert_eq!(document.set_data(1).err().unwrap().kind(), ErrorKind::Unknown);
}

#[test]
fn stemmer_creation() {
    let mut stem = Stem::new(String::from("english"), 0).unwrap();
    assert_eq!(stem.native_mut().as_str(), "english");
    let fault = Stem::new(String::from("klingon"), -1).err().unwrap();
    assert_eq!(fault.kind(), ErrorKind::InvalidArgument);
    assert!(matches!(Stem::new(String::new(), 1), Err(XError::Xapian(1))));
}

#[test]
fn term_generator_creation() {
    let mut generator = TermGenerator::new(3u64, 0).unwrap();
    assert_eq!(*generator.native_mut(), 3);
    assert!(matches!(TermGenerator::new(3u64, -15), Err(XError::Xapian(-15))));
    assert!(matches!(TermGenerator::new(3u64, 9), Err(XError::Xapian(9))));
}

#[test]
fn term_generator_calls_succeed_on_zero() {
    let generator = TermGenerator::new(0u8, 0).unwrap();
    assert!(generator.set_stemmer(0).is_ok());
    assert!(generator.set_document(0).is_ok());
    assert!(generator.index_text_with_prefix(0).is_ok());
    assert!(generator.index_text(0).is_ok());
    assert!(generator.index_int(0).is_ok());
    assert!(generator.index_long(0).is_ok());
    assert!(generator.index_float(0).is_ok());
    assert!(generator.index_double(0).is_ok());
}

#[test]
fn term_generator_calls_fail_on_every_other_code() {
    let generator = TermGenerator::new(0u8, 0).unwrap();
    assert!(matches!(generator.set_stemmer(-1), Err(XError::Xapian(-1))));
    assert!(matches!(generator.set_document(-2), Err(XError::Xapian(-2))));
    assert!(matches!(generator.index_text_with_prefix(-3), Err(XError::Xapian(-3))));
    assert!(matches!(generator.index_text(-15), Err(XError::Xapian(-15))));
    assert!(matches!(generator.index_int(-1), Err(XError::Xapian(-1))));
    assert!(matches!(generator.index_long(-1), Err(XError::Xapian(-1))));
    assert!(matches!(generator.index_float(-1), Err(XError::Xapian(-1))));
    assert!(matches!(generator.index_double(-128), Err(XError::Xapian(-128))));
    assert!(matches!(generator.set_stemmer(1), Err(XError::Xapian(1))));
    assert!(matches!(generator.set_document(1), Err(XError::Xapian(1))));
    assert!(matches!(generator.index_text_with_prefix(1), Err(XError::Xapian(1))));
    assert!(matches!(generator.index_text(1), Err(XError::Xapian(1))));
    assert!(matches!(generator.index_int(1), Err(XError::Xapian(1))));
    assert!(matches!(generator.index_long(1), Err(XError::Xapian(1))));
    assert!(matches!(generator.index_float(1), Err(XError::Xapian(1))));
    assert!(matches!(generator.index_double(127), Err(XError::Xapian(127))));
}

use xapian_rusty::{Database, ErrorKind, Query, QueryParser, XError, XapianOp};

fn built(native: &str) -> Query<String> {
    Query::new_range(native.to_string(), 0).expect("the engine set no code")
}

#[test]
fn fresh_query_is_empty() {
    let query: Query<String> = Query::new().expect("never fails");
    assert!(query.is_empty());
}

#[test]
fn fresh_query_matches_nothing_whatever_the_engine_says() {
    let query: Query<String> = Query::new().unwrap();
    assert!(matches!(query.is_empty_content_query(false, 0), Ok(true)));
    assert!(matches!(query.is_empty_content_query(true, 0), Ok(true)));
    assert!(matches!(query.is_empty_content_query(false, -15), Ok(true)));
    assert!(matches!(query.is_empty_content_query(false, 1), Ok(true)));
}

#[test]
fn fresh_query_has_no_description() {
    let query: Query<String> = Query::new().unwrap();
    assert_eq!(query.get_description(String::from("Query(never asked)")), "");
}

#[test]
fn fresh_query_has_no_native() {
    let mut query: Query<String> = Query::new().unwrap();
    assert!(query.native_mut().is_none());
}

#[test]
fn built_query_is_not_empty() {
    let query = built("range");
    assert!(!query.is_empty());
}

#[test]
fn built_query_owns_what_the_engine_returned() {
    let mut query = built("range");
    assert_eq!(query.native_mut().map(|native| native.as_str()), Some("range"));
    query.native_mut().unwrap().push_str(" 1..2");
    assert_eq!(query.native_mut().map(|native| native.as_str()), Some("range 1..2"));
}

#[test]
fn parsed_noise_is_built_but_matches_nothing() {
    let parser = QueryParser::new(String::from("parser"), 0).unwrap();
    let query = parser.parse_query(String::from("the of and"), 0).unwrap();
    assert!(!query.is_empty());
    assert!(matches!(query.is_empty_content_query(true, 0), Ok(true)));
}

#[test]
fn content_emptiness_is_the_engines_answer() {
    let query = built("term");
    assert!(matches!(query.is_empty_content_query(false, 0), Ok(false)));
    assert!(matches!(query.is_empty_content_query(true, 0), Ok(true)));
}

#[test]
fn content_emptiness_fault_is_surfaced() {
    let query = built("term");
    assert!(matches!(query.is_empty_content_query(false, -1), Err(XError::Xapian(-1))));
    assert!(matches!(query.is_empty_content_query(true, -15), Err(XError::Xapian(-15))));
    assert!(matches!(query.is_empty_content_query(false, 1), Err(XError::Xapian(1))));
    let fault = query.is_empty_content_query(true, -16).err().unwrap();
    assert_eq!(fault.kind(), ErrorKind::Network);
}

#[test]
fn combining_with_the_empty_query_is_refused() {
    let empty: Query<String> = Query::new().unwrap();
    let fault = empty.add_right(built("B"), String::new(), 0).err().unwrap();
    assert!(matches!(fault, XError::Xapian(-1)));
    assert_eq!(fault.kind(), ErrorKind::InvalidArgument);
    let empty: Query<String> = Query::new().unwrap();
    assert!(matches!(built("A").add_right(empty, String::new(), 0), Err(XError::Xapian(-1))));
    let left: Query<String> = Query::new().unwrap();
    let right: Query<String> = Query::new().unwrap();
    assert!(matches!(left.add_right(right, String::new(), 0), Err(XError::Xapian(-1))));
}

#[test]
fn empty_operand_is_refused_whatever_the_engine_answered() {
    for code in [-20, -1, 0, 1] {
        let empty: Query<String> = Query::new().unwrap();
        let result = built("A").add_right(empty, String::from("ignored"), code);
        assert!(matches!(result, Err(XError::Xapian(-1))));
    }
}

#[test]
fn description_is_the_engines() {
    let query = built("term");
    assert_eq!(query.get_description(String::from("Query(term)")), "Query(term)");
}

#[test]
fn descriptions_of_two_groupings_stay_apart() {
    let a = built("A");
    let b = built("B");
    let c = built("C");
    let left_first = a
        .add_right(b, String::from("(A AND B)"), 0)
        .unwrap()
        .add_right(c, String::from("((A AND B) OR C)"), 0)
        .unwrap();
    let a = built("A");
    let b = built("B");
    let c = built("C");
    let right_first = a
        .add_right(b.add_right(c, String::from("(B OR C)"), 0).unwrap(), String::from("(A AND (B OR C))"), 0)
        .unwrap();
    let left_text = left_first.get_description(String::from("Query(((A AND B) OR C))"));
    let right_text = right_first.get_description(String::from("Query((A AND (B OR C)))"));
    assert_eq!(left_text, "Query(((A AND B) OR C))");
    assert_eq!(right_text, "Query((A AND (B OR C)))");
    assert_ne!(left_text, right_text);
}

#[test]
fn range_query_fault_is_surfaced() {
    let result = Query::new_range(String::new(), -1);
    assert!(matches!(result, Err(XError::Xapian(-1))));
    assert_eq!(result.err().unwrap().kind(), ErrorKind::InvalidArgument);
}

#[test]
fn range_query_positive_code_is_a_fault() {
    assert!(matches!(Query::new_range(String::new(), 4), Err(XError::Xapian(4))));
}

#[test]
fn prefixed_value_query() {
    let mut query = Query::new_double_with_prefix(7u32, 0).unwrap();
    assert!(!query.is_empty());
    assert_eq!(query.native_mut().copied(), Some(7));
    assert!(matches!(Query::new_double_with_prefix(7u32, -14), Err(XError::Xapian(-14))));
}

#[test]
fn operands_are_handed_over_left_then_right() {
    let mut left = built("A");
    let mut right = built("B");
    let (first, code, second) = left.operands(XapianOp::OpAndNot, &mut right).unwrap();
    assert_eq!(first.as_str(), "A");
    assert_eq!(code, 2);
    assert_eq!(second.as_str(), "B");
}

#[test]
fn operands_swap_with_the_receiver() {
    let mut a = built("A");
    let mut b = built("B");
    {
        let (first, _, second) = b.operands(XapianOp::OpOr, &mut a).unwrap();
        assert_eq!(first.as_str(), "B");
        assert_eq!(second.as_str(), "A");
    }
    let (first, code, second) = a.operands(XapianOp::OpOr, &mut b).unwrap();
    assert_eq!((first.as_str(), code, second.as_str()), ("A", 1, "B"));
}

#[test]
fn operands_of_an_empty_query_are_none() {
    let mut empty: Query<String> = Query::new().unwrap();
    let mut term = built("A");
    assert!(empty.operands(XapianOp::OpAnd, &mut term).is_none());
    assert!(term.operands(XapianOp::OpAnd, &mut empty).is_none());
    let mut other: Query<String> = Query::new().unwrap();
    assert!(empty.operands(XapianOp::OpAnd, &mut other).is_none());
    assert!(empty.is_empty());
    assert!(!term.is_empty());
}

#[test]
fn operands_can_be_worked_on_in_place() {
    let mut left = built("A");
    let mut right = built("B");
    {
        let (first, _, second) = left.operands(XapianOp::OpXor, &mut right).unwrap();
        first.push('1');
        second.push('2');
    }
    assert_eq!(left.native_mut().map(|native| native.as_str()), Some("A1"));
    assert_eq!(right.native_mut().map(|native| native.as_str()), Some("B2"));
}

#[test]
fn combined_query_owns_what_the_engine_returned() {
    let mut combined = built("left").add_right(built("right"), String::from("both"), 0).unwrap();
    assert!(!combined.is_empty());
    assert_eq!(combined.native_mut().map(|native| native.as_str()), Some("both"));
}

#[test]
fn combining_fault_is_surfaced() {
    let result = built("left").add_right(built("right"), String::new(), -3);
    assert!(matches!(result, Err(XError::Xapian(-3))));
}

#[test]
fn parser_creation() {
    let mut parser = QueryParser::new(11u32, 0).unwrap();
    assert_eq!(*parser.native_mut(), 11);
    *parser.native_mut() = 12;
    assert_eq!(*parser.native_mut(), 12);
    assert!(matches!(QueryParser::new(11u32, -15), Err(XError::Xapian(-15))));
    assert!(matches!(QueryParser::new(11u32, 1), Err(XError::Xapian(1))));
}

#[test]
fn parser_settings_succeed_on_zero_alone() {
    let parser = QueryParser::new(0u8, 0).unwrap();
    assert!(parser.set_max_wildcard_expansion(0).is_ok());
    assert!(matches!(parser.set_max_wildcard_expansion(-1), Err(XError::Xapian(-1))));
    assert!(matches!(parser.set_max_wildcard_expansion(1), Err(XError::Xapian(1))));
    let database = Database::new(String::from("store"), 0).unwrap();
    assert!(parser.set_database(&database, 0).is_ok());
    assert!(matches!(parser.set_database(&database, -11), Err(XError::Xapian(-11))));
    assert!(matches!(parser.set_database(&database, 1), Err(XError::Xapian(1))));
    assert!(parser.set_stemmer(0).is_ok());
    assert!(matches!(parser.set_stemmer(1), Err(XError::Xapian(1))));
    assert!(matches!(parser.set_stemmer(-1), Err(XError::Xapian(-1))));
}

#[test]
fn closed_database_cannot_be_attached() {
    let parser = QueryParser::new(0u8, 0).unwrap();
    let mut database = Database::new(String::from("store"), 0).unwrap();
    database.close(0).unwrap();
    let fault = parser.set_database(&database, 0).err().unwrap();
    assert!(matches!(fault, XError::Xapian(-25)));
    assert_eq!(fault.kind(), ErrorKind::DatabaseClosed);
    assert!(matches!(parser.set_database(&database, -11), Err(XError::Xapian(-25))));
}

#[test]
fn parse_fault_is_a_parser_error() {
    let parser = QueryParser::new(0u8, 0).unwrap();
    let result = parser.parse_query(String::new(), -20);
    assert!(matches!(result, Err(XError::Xapian(-20))));
    assert_eq!(result.err().unwrap().kind(), ErrorKind::QueryParser);
    let result = parser.parse_query_with_prefix(String::new(), -23);
    assert_eq!(result.err().unwrap().kind(), ErrorKind::Wildcard);
}

#[test]
fn parse_with_prefix_gives_the_engines_query() {
    let parser = QueryParser::new(0u8, 0).unwrap();
    let mut query = parser.parse_query_with_prefix(String::from("Stitle:x"), 0).unwrap();
    assert_eq!(query.native_mut().map(|native| native.as_str()), Some("Stitle:x"));
}

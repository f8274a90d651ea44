use langview::validation::{within_limits, MAX_SCHEMA_TAGS, judge, Position, ValidationOutcome, Validator, Verdict, Violation};

const BOOK: &str = r#"<element xmlns="http://relaxng.org/ns/structure/1.0" name="book"><element name="title"><text/></element></element>"#;

#[test]
fn conforming_document_is_valid() {
    let v = Validator::new(BOOK).expect("schema compiles");
    let r = v.validate("book.xml", "<book><title>Dune</title></book>");
    assert!(matches!(r, ValidationOutcome::Valid));
}

#[test]
fn violating_document_gives_one_located_diagnostic() {
    let v = Validator::new(BOOK).expect("schema compiles");
    match v.validate("book.xml", "<book><author>Herbert</author></book>") {
        ValidationOutcome::Invalid(d) => {
            assert_eq!(d.source, "book.xml");
            assert!(!d.message.is_empty());
            assert!(d.position.is_some());
        }
        ValidationOutcome::Valid => panic!("expected a diagnostic"),
    }
}

#[test]
fn malformed_document_is_reported_without_position() {
    let v = Validator::new(BOOK).expect("schema compiles");
    match v.validate("book.xml", "<book><title>") {
        ValidationOutcome::Invalid(d) => {
            assert_eq!(d.source, "book.xml");
            assert!(d.position.is_none());
            assert!(!d.message.is_empty());
        }
        ValidationOutcome::Valid => panic!("expected a diagnostic"),
    }
}

#[test]
fn broken_schema_is_refused() {
    assert!(Validator::new("<element").is_err());
}

#[test]
fn judge_conforms_is_valid() {
    assert!(matches!(judge("a.lang", Verdict::Conforms), ValidationOutcome::Valid));
}

#[test]
fn judge_takes_first_violation() {
    let v = vec![
        Violation { message: "first".to_string(), position: Some(Position { line: 3, column: 7 }) },
        Violation { message: "second".to_string(), position: Some(Position { line: 9, column: 1 }) },
    ];
    match judge("a.lang", Verdict::Violates(v)) {
        ValidationOutcome::Invalid(d) => {
            assert_eq!(d.source, "a.lang");
            assert_eq!(d.message, "first");
            assert_eq!(d.position, Some(Position { line: 3, column: 7 }));
        }
        ValidationOutcome::Valid => panic!("expected a diagnostic"),
    }
}

#[test]
fn judge_fills_empty_messages() {
    let v = vec![Violation { message: String::new(), position: None }];
    match judge("a.lang", Verdict::Violates(v)) {
        ValidationOutcome::Invalid(d) => assert_eq!(d.message, "document does not match the schema"),
        ValidationOutcome::Valid => panic!("expected a diagnostic"),
    }
    match judge("a.lang", Verdict::Malformed(String::new())) {
        ValidationOutcome::Invalid(d) => {
            assert_eq!(d.message, "document is not well-formed XML");
            assert!(d.position.is_none());
        }
        ValidationOutcome::Valid => panic!("expected a diagnostic"),
    }
}

#[test]
fn judge_empty_violation_list_is_still_invalid() {
    match judge("a.lang", Verdict::Violates(vec![])) {
        ValidationOutcome::Invalid(d) => {
            assert_eq!(d.source, "a.lang");
            assert!(d.position.is_none());
        }
        ValidationOutcome::Valid => panic!("expected a diagnostic"),
    }
}

#[test]
fn judge_keeps_malformed_reason() {
    match judge("a.lang", Verdict::Malformed("unexpected end".to_string())) {
        ValidationOutcome::Invalid(d) => assert_eq!(d.message, "unexpected end"),
        ValidationOutcome::Valid => panic!("expected a diagnostic"),
    }
}

#[test]
fn schema_with_ref_is_refused_before_parsing() {
    let looping = r#"<grammar xmlns="http://relaxng.org/ns/structure/1.0"><start><ref name="a"/></start><define name="a"><element name="x"><ref name="a"/></element></define></grammar>"#;
    assert!(!within_limits(looping));
    match Validator::new(looping) {
        Err(e) => assert!(!e.message.is_empty()),
        Ok(_) => panic!("expected a refusal"),
    }
    assert!(!within_limits("<rng:ref name='a'/>"));
    assert!(within_limits(BOOK));
}

#[test]
fn schema_with_too_many_elements_is_refused() {
    let many = "<a/>".repeat(MAX_SCHEMA_TAGS + 1);
    assert!(!within_limits(&many));
    let enough = "<a/>".repeat(MAX_SCHEMA_TAGS);
    assert!(within_limits(&enough));
}

#[test]
fn validating_twice_gives_same_outcome() {
    let v = Validator::new(BOOK).expect("schema compiles");
    let doc = "<book><author>x</author></book>";
    match (v.validate("d.xml", doc), v.validate("d.xml", doc)) {
        (ValidationOutcome::Invalid(a), ValidationOutcome::Invalid(b)) => {
            assert_eq!(a.message, b.message);
            assert_eq!(a.position, b.position);
        }
        _ => panic!("expected two diagnostics"),
    }
}

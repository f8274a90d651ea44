use langview::compiler::{Compiler, SCHEMA_FILE};
use langview::validation::ValidationOutcome;
use langview::Args;

fn plain() -> Compiler {
    Compiler::new(
        "demo.rs".to_string(),
        vec!["/usr/share/langs".to_string(), "/home/u/.langs".to_string()],
        "/tmp".to_string(),
        vec![None, None, None],
    )
    .unwrap()
}

const LANG_SCHEMA: &str = r#"<element xmlns="http://relaxng.org/ns/structure/1.0" name="language"><empty/></element>"#;
const OTHER_SCHEMA: &str = r#"<element xmlns="http://relaxng.org/ns/structure/1.0" name="grammar"><empty/></element>"#;

#[test]
fn search_paths_end_with_work_dir() {
    let c = plain();
    assert_eq!(c.lang_search_paths, vec!["/usr/share/langs", "/home/u/.langs", "/tmp"]);
    assert_eq!(c.test_file, "demo.rs");
    assert!(c.validator.is_none());
}

#[test]
fn first_schema_in_search_order_wins() {
    let c = Compiler::new(
        "demo.rs".to_string(),
        vec!["a".to_string(), "b".to_string()],
        "/tmp".to_string(),
        vec![None, Some(LANG_SCHEMA.to_string()), Some(OTHER_SCHEMA.to_string())],
    )
    .unwrap();
    let b = c.compile_buffer("<language/>", "/tmp/x.lang", Ok("rust".to_string())).unwrap();
    assert!(matches!(b.check, ValidationOutcome::Valid));
    let b = c.compile_buffer("<grammar/>", "/tmp/x.lang", Ok("rust".to_string())).unwrap();
    assert!(matches!(b.check, ValidationOutcome::Invalid(_)));
    assert_eq!(SCHEMA_FILE, "language2.rng");
}

#[test]
fn no_schema_means_no_validator() {
    assert!(plain().validator.is_none());
}

#[test]
fn broken_first_schema_is_refused() {
    let r = Compiler::new(
        "demo.rs".to_string(),
        vec!["a".to_string()],
        "/tmp".to_string(),
        vec![Some("<element".to_string()), Some(LANG_SCHEMA.to_string())],
    );
    match r {
        Err(e) => assert!(!e.message.is_empty()),
        Ok(_) => panic!("expected the first schema to be refused"),
    }
}

#[test]
fn resolution_failure_names_test_file() {
    let c = plain();
    let d = c.compile_buffer("<language/>", "/tmp/x.lang", Err("no match".to_string())).unwrap_err();
    assert_eq!(d.source, "demo.rs");
    assert_eq!(d.message, "no match");
    assert!(d.position.is_none());
    let d = c.compile_buffer("<language/>", "/tmp/x.lang", Err(String::new())).unwrap_err();
    assert_eq!(d.message, "no language matches this file");
}

#[test]
fn resolved_without_schema_is_valid() {
    let b = plain().compile_buffer("not even xml", "/tmp/x.lang", Ok("rust".to_string())).unwrap();
    assert_eq!(b.kind, "rust");
    assert!(matches!(b.check, ValidationOutcome::Valid));
}

#[test]
fn resolved_with_schema_checks_definition() {
    let c = Compiler::new("demo.rs".to_string(), vec![], "/tmp".to_string(), vec![Some(LANG_SCHEMA.to_string())])
        .unwrap();
    let b = c.compile_buffer("<language/>", "/tmp/x.lang", Ok("rust".to_string())).unwrap();
    assert!(matches!(b.check, ValidationOutcome::Valid));
    let b = c.compile_buffer("<grammar/>", "/tmp/x.lang", Ok("rust".to_string())).unwrap();
    assert_eq!(b.kind, "rust");
    match b.check {
        ValidationOutcome::Invalid(d) => assert_eq!(d.source, "/tmp/x.lang"),
        ValidationOutcome::Valid => panic!("expected a diagnostic"),
    }
}

#[test]
fn args_hold_both_paths() {
    let a = Args::new("x.lang".to_string(), "demo.rs".to_string());
    assert_eq!(a.lang, "x.lang");
    assert_eq!(a.test, "demo.rs");
}

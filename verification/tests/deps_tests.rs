use bote::deps::verify_dependencies;
use bote::deps::VerifyError;

fn names(items: &[&str]) -> Vec<String> {
    items.iter().map(|s| s.to_string()).collect()
}

#[test]
fn satisfied_specs_verify() {
    let specs = names(&["^ls$", "cat"]);
    let executables = names(&["ls", "cat", "cp"]);
    assert!(verify_dependencies(&specs, &executables).is_ok());
}

#[test]
fn no_specs_verify_trivially() {
    let specs: Vec<String> = Vec::new();
    let executables = names(&["ls"]);
    assert!(verify_dependencies(&specs, &executables).is_ok());
}

#[test]
fn the_first_unmatched_spec_is_reported() {
    let specs = names(&["^ls$", "^curl$", "^wget$"]);
    let executables = names(&["ls", "cat"]);
    match verify_dependencies(&specs, &executables) {
        Err(VerifyError::Missing { pattern }) => assert_eq!(pattern, "^curl$".to_string()),
        _ => panic!("expected the first unmatched spec"),
    }
}

#[test]
fn an_invalid_pattern_is_reported() {
    let specs = names(&["("]);
    let executables = names(&["ls"]);
    match verify_dependencies(&specs, &executables) {
        Err(VerifyError::InvalidPattern { pattern }) => assert_eq!(pattern, "(".to_string()),
        _ => panic!("expected an invalid pattern"),
    }
}

#[test]
fn matching_is_a_regex_search_over_names() {
    let specs = names(&["gcc|clang"]);
    let executables = names(&["clang-15"]);
    assert!(verify_dependencies(&specs, &executables).is_ok());
    let executables = names(&["tcc"]);
    assert!(verify_dependencies(&specs, &executables).is_err());
}

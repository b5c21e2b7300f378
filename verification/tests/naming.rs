use workmux::naming::{derive_handle, validate_handle, NamingError};

#[test]
fn derive_handle_explicit_name() {
    let result = derive_handle("prj-4120/feature", Some("cool-feature")).unwrap();
    assert_eq!(result, "cool-feature");
}

#[test]
fn derive_handle_explicit_name_with_spaces() {
    let result = derive_handle("branch", Some("My Cool Feature")).unwrap();
    assert_eq!(result, "my-cool-feature");
}

#[test]
fn derive_handle_explicit_name_with_special_chars() {
    let result = derive_handle("branch", Some("Feature! @#$%")).unwrap();
    assert_eq!(result, "feature");
}

#[test]
fn derive_handle_branch_name_slugified() {
    let result = derive_handle("prj-4120/create-new-tags", None).unwrap();
    assert_eq!(result, "prj-4120-create-new-tags");
}

#[test]
fn derive_handle_simple_branch() {
    let result = derive_handle("main", None).unwrap();
    assert_eq!(result, "main");
}

#[test]
fn derive_handle_nested_branch() {
    let result = derive_handle("feature/auth/oauth", None).unwrap();
    assert_eq!(result, "feature-auth-oauth");
}

#[test]
fn derive_handle_empty_explicit_name_fails() {
    let result = derive_handle("branch", Some(""));
    assert!(result.is_err());
}

#[test]
fn validate_handle_empty_fails() {
    let result = validate_handle("");
    assert!(result.is_err());
}

#[test]
fn validate_handle_valid() {
    let result = validate_handle("my-feature");
    assert!(result.is_ok());
}

#[test]
fn validate_handle_with_numbers() {
    let result = validate_handle("feature-123");
    assert!(result.is_ok());
}

#[test]
fn derive_handle_separators_and_spaces_removed() {
    // A branch name full of separators and whitespace yields a non-empty
    // handle with neither.
    let result = derive_handle("team a/sub dir/my branch", None).unwrap();
    assert_eq!(result, "team-a-sub-dir-my-branch");
    assert!(!result.is_empty());
    assert!(!result.contains('/'));
    assert!(!result.contains(char::is_whitespace));
}

#[test]
fn derive_handle_override_wins_over_branch() {
    // Changing the branch while holding the override fixed never changes
    // the result.
    let a = derive_handle("one/branch", Some("Fixed Name")).unwrap();
    let b = derive_handle("another branch entirely", Some("Fixed Name")).unwrap();
    assert_eq!(a, b);
    assert_eq!(a, "fixed-name");
}

#[test]
fn derive_handle_unsluggable_branch_fails() {
    let result = derive_handle("!!!", None);
    assert!(result.is_err());
}

#[test]
fn naming_error_messages() {
    assert_eq!(NamingError::Empty.message(), "Handle cannot be empty");
    assert_eq!(
        NamingError::PathTraversal.message(),
        "Handle cannot contain path traversal"
    );
    assert_eq!(
        NamingError::Whitespace.message(),
        "Handle cannot contain whitespace"
    );
}

#[test]
fn validate_handle_rejects_traversal_and_whitespace() {
    assert!(matches!(
        validate_handle("a..b"),
        Err(NamingError::PathTraversal)
    ));
    assert!(matches!(
        validate_handle("/abs"),
        Err(NamingError::PathTraversal)
    ));
    assert!(matches!(
        validate_handle("has space"),
        Err(NamingError::Whitespace)
    ));
}

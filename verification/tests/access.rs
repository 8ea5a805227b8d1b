use localserve::access::{authorize, validate_directory, AccessError, ScopePolicy};

#[test]
fn authorize_existing_directory_succeeds() {
    let mut policy = ScopePolicy::new();
    let path = String::from("/tmp/site");
    assert_eq!(authorize(&mut policy, &path, true, true, true), Ok(()));
    assert!(policy.is_granted(&path));
}

#[test]
fn authorize_is_idempotent() {
    let mut policy = ScopePolicy::new();
    let path = String::from("/tmp/site");
    assert_eq!(authorize(&mut policy, &path, true, true, true), Ok(()));
    assert_eq!(authorize(&mut policy, &path, true, true, true), Ok(()));
    assert!(policy.is_granted(&path));
    let other = String::from("/tmp/other");
    assert!(!policy.is_granted(&other));
}

#[test]
fn authorize_missing_path_fails() {
    let mut policy = ScopePolicy::new();
    let path = String::from("/no/such/dir");
    assert_eq!(
        authorize(&mut policy, &path, false, false, true),
        Err(AccessError::NotFound)
    );
    assert!(!policy.is_granted(&path));
}

#[test]
fn authorize_file_path_fails() {
    let mut policy = ScopePolicy::new();
    let path = String::from("/tmp/file.txt");
    assert_eq!(
        authorize(&mut policy, &path, true, false, true),
        Err(AccessError::NotADirectory)
    );
    assert!(!policy.is_granted(&path));
}

#[test]
fn authorize_host_refusal_fails_and_grants_nothing() {
    let mut policy = ScopePolicy::new();
    let path = String::from("/tmp/site");
    assert_eq!(
        authorize(&mut policy, &path, true, true, false),
        Err(AccessError::GrantDenied)
    );
    assert!(!policy.is_granted(&path));
}

#[test]
fn validate_directory_checks_in_order() {
    assert_eq!(validate_directory(false, false), Err(AccessError::NotFound));
    assert_eq!(validate_directory(false, true), Err(AccessError::NotFound));
    assert_eq!(
        validate_directory(true, false),
        Err(AccessError::NotADirectory)
    );
    assert_eq!(validate_directory(true, true), Ok(()));
}

#[test]
fn access_error_messages() {
    assert_eq!(AccessError::NotFound.message(), "path does not exist");
    assert_eq!(AccessError::NotADirectory.message(), "path is not a directory");
    assert_eq!(AccessError::GrantDenied.message(), "failed to allow directory");
}

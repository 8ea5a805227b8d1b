use localserve::access::AccessError;
use localserve::lifecycle::{ServerRuntime, StartError, StopError};

#[test]
fn start_returns_loopback_url() {
    let mut rt = ServerRuntime::new();
    assert!(!rt.is_running());
    assert_eq!(rt.check_start(Ok(())), Ok(()));
    let url = rt.commit_start(String::from("/tmp/site"), Some(3000)).unwrap();
    assert_eq!(url, "http://127.0.0.1:3000");
    assert!(rt.is_running());
    assert_eq!(rt.root_directory(), Some(&String::from("/tmp/site")));
}

#[test]
fn start_while_running_fails() {
    let mut rt = ServerRuntime::new();
    assert_eq!(rt.check_start(Ok(())), Ok(()));
    rt.commit_start(String::from("/tmp/site"), Some(3000)).unwrap();
    assert_eq!(rt.check_start(Ok(())), Err(StartError::AlreadyRunning));
    assert_eq!(
        rt.check_start(Err(AccessError::NotFound)),
        Err(StartError::AlreadyRunning)
    );
}

#[test]
fn stop_without_running_instance_fails() {
    let mut rt = ServerRuntime::new();
    assert_eq!(rt.stop(), Err(StopError::NotRunning));
}

#[test]
fn stop_clears_the_instance() {
    let mut rt = ServerRuntime::new();
    assert_eq!(rt.check_start(Ok(())), Ok(()));
    rt.commit_start(String::from("/tmp/site"), Some(3000)).unwrap();
    assert_eq!(rt.stop(), Ok(()));
    assert!(!rt.is_running());
    assert_eq!(rt.root_directory(), None);
    assert_eq!(rt.stop(), Err(StopError::NotRunning));
}

#[test]
fn bind_failure_leaves_a_retry_possible() {
    let mut rt = ServerRuntime::new();
    assert_eq!(rt.check_start(Ok(())), Ok(()));
    assert_eq!(
        rt.commit_start(String::from("/tmp/site"), None),
        Err(StartError::BindFailed)
    );
    assert!(!rt.is_running());
    assert_eq!(rt.check_start(Ok(())), Ok(()));
    let url = rt.commit_start(String::from("/tmp/site"), Some(8080)).unwrap();
    assert_eq!(url, "http://127.0.0.1:8080");
}

#[test]
fn access_verdicts_map_to_start_errors() {
    let rt = ServerRuntime::new();
    assert_eq!(
        rt.check_start(Err(AccessError::NotFound)),
        Err(StartError::InvalidDirectory)
    );
    assert_eq!(
        rt.check_start(Err(AccessError::NotADirectory)),
        Err(StartError::InvalidDirectory)
    );
    assert_eq!(
        rt.check_start(Err(AccessError::GrantDenied)),
        Err(StartError::GrantDenied)
    );
}

#[test]
fn two_serialized_starts_let_exactly_one_through() {
    let mut rt = ServerRuntime::new();
    let first = rt.check_start(Ok(()));
    assert_eq!(first, Ok(()));
    rt.commit_start(String::from("/tmp/first"), Some(3000)).unwrap();
    let second = rt.check_start(Ok(()));
    assert_eq!(second, Err(StartError::AlreadyRunning));
    assert_eq!(rt.root_directory(), Some(&String::from("/tmp/first")));
}

#[test]
fn restart_serves_a_new_directory() {
    let mut rt = ServerRuntime::new();
    rt.commit_start(String::from("/tmp/a"), Some(3000)).unwrap();
    assert_eq!(rt.stop(), Ok(()));
    assert_eq!(rt.check_start(Ok(())), Ok(()));
    rt.commit_start(String::from("/tmp/b"), Some(3000)).unwrap();
    assert_eq!(rt.root_directory(), Some(&String::from("/tmp/b")));
}

#[test]
fn lifecycle_error_messages() {
    assert_eq!(StartError::AlreadyRunning.message(), "server already running");
    assert_eq!(StartError::InvalidDirectory.message(), "invalid directory path");
    assert_eq!(StartError::GrantDenied.message(), "failed to allow directory");
    assert_eq!(StartError::BindFailed.message(), "failed to bind listener");
    assert_eq!(StopError::NotRunning.message(), "server not running");
}

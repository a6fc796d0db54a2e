use ghcr_cleaner::request::{check, status_is_server_error, status_is_success, Reply, RequestError};

#[test]
fn success_is_200_to_299() {
    assert!(!status_is_success(199));
    assert!(status_is_success(200));
    assert!(status_is_success(204));
    assert!(status_is_success(299));
    assert!(!status_is_success(300));
    assert!(!status_is_success(0));
    assert!(!status_is_success(u16::MAX));
}

#[test]
fn server_error_is_500_to_599() {
    assert!(!status_is_server_error(499));
    assert!(status_is_server_error(500));
    assert!(status_is_server_error(503));
    assert!(status_is_server_error(599));
    assert!(!status_is_server_error(600));
    assert!(!status_is_server_error(200));
}

#[test]
fn check_accepts_success_only() {
    assert_eq!(check(Reply::Status(200)), Ok(()));
    assert_eq!(check(Reply::Status(299)), Ok(()));
    assert_eq!(check(Reply::Status(304)), Err(RequestError::Status(304)));
    assert_eq!(check(Reply::Status(401)), Err(RequestError::Status(401)));
    assert_eq!(check(Reply::Status(404)), Err(RequestError::Status(404)));
    assert_eq!(check(Reply::Status(500)), Err(RequestError::Status(500)));
    assert_eq!(check(Reply::Status(100)), Err(RequestError::Status(100)));
}

#[test]
fn check_reports_a_failed_transport() {
    assert_eq!(check(Reply::Transport), Err(RequestError::Transport));
}

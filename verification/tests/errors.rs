use sample_controller::error::{
    Error, FinalizerError, KubeError, CONFLICT, FORBIDDEN, NOT_FOUND,
};

fn api_error(code: u16) -> KubeError {
    KubeError::Api { code, reason: String::new(), message: String::new() }
}

#[test]
fn not_found_is_status_404() {
    assert_eq!(NOT_FOUND, 404);
    assert!(api_error(404).is_not_found());
    assert!(!api_error(409).is_not_found());
    assert!(!api_error(0).is_not_found());
    assert!(!KubeError::Transport("404".to_string()).is_not_found());
}

#[test]
fn conflict_is_status_409() {
    assert_eq!(CONFLICT, 409);
    assert!(api_error(409).is_conflict());
    assert!(!api_error(404).is_conflict());
    assert!(!KubeError::Transport("conflict".to_string()).is_conflict());
}

#[test]
fn forbidden_is_status_403() {
    assert_eq!(FORBIDDEN, 403);
    assert!(api_error(403).is_forbidden());
    assert!(!api_error(401).is_forbidden());
    assert!(!KubeError::Transport("forbidden".to_string()).is_forbidden());
}

#[test]
fn api_failures_become_kube_errors() {
    assert_eq!(Error::from(api_error(500)), Error::KubeError(api_error(500)));
    let transport = KubeError::Transport("reset".to_string());
    assert_eq!(Error::from(transport.clone()), Error::KubeError(transport));
}

#[test]
fn protocol_failures_become_finalizer_errors() {
    assert_eq!(
        Error::from(Box::new(FinalizerError::UnnamedObject)),
        Error::FinalizerError(Box::new(FinalizerError::UnnamedObject))
    );
}

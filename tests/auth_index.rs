use home_api::auth::{ldap_connection_error, session_error, user};
use home_api::errors::ServerError;
use home_api::index::{health, version};

#[test]
fn user_with_identity() {
    assert_eq!(user(Some("alice".to_string())).unwrap().0, "alice");
}

#[test]
fn user_without_identity_is_unauthorized() {
    let r = user(None);
    assert!(matches!(r, Err(ServerError::Login { code: 401, ref message }) if message == "Not logged in"));
}

#[test]
fn login_failures() {
    let e = ldap_connection_error("refused");
    assert!(matches!(e, ServerError::Login { code: 500, ref message }
        if message == "Failed to connect to LDAP server: refused"));
    let e = session_error("full");
    assert!(matches!(e, ServerError::Login { code: 500, ref message }
        if message == "Failed to save session: full"));
}

#[test]
fn health_verdicts() {
    assert_eq!(health(Some(Ok(()))).unwrap(), "OK");
    let r = health(Some(Err("timeout".to_string())));
    assert!(matches!(r, Err(ServerError::HealthCheck { ref errors })
        if errors == &vec!["Failed to connect to S3 bucket: timeout".to_string()]));
    let r = health(None);
    assert!(matches!(r, Err(ServerError::HealthCheck { ref errors })
        if errors == &vec!["s3 client is not initialized".to_string()]));
}

#[test]
fn version_report() {
    let v = version("0.1.0", Some("abc123"));
    assert_eq!(v.version, "0.1.0");
    assert_eq!(v.commit, "abc123");
    assert_eq!(version("0.1.0", None).commit, "not_commit");
}

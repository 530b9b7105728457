use vstd::prelude::*;

use crate::errors::{ServerError, INTERNAL_SERVER_ERROR, UNAUTHORIZED};

verus! {

/// Credentials posted to the login endpoint.
#[derive(Clone, Debug)]
pub struct LoginRequest {
    pub username: String,
    pub password: String,
}

/// The identity of the logged-in user.
#[derive(Clone, Debug)]
pub struct User(pub String);

/// The user of a session, given the identity it carries, if any. Without
/// one the request is refused as unauthorized.
pub fn user(identity: Option<String>) -> (r: Result<User, ServerError>)
    ensures
        match identity {
            Some(id) => r matches Ok(u) && u.0 == id,
            None => r matches Err(ServerError::Login { code, message }) && code == 401
                && message@ == "Not logged in"@,
        },
        r matches Err(e) ==> e.wf(),
{
    match identity {
        Some(id) => Ok(User(id)),
        None => Err(
            ServerError::Login { code: UNAUTHORIZED, message: String::from_str("Not logged in") },
        ),
    }
}

fn login_failure(prefix: &str, detail: &str) -> (r: ServerError)
    ensures
        r == (ServerError::Login { code: 500, message: r->Login_message }),
        r->Login_message@ == prefix@ + detail@,
{
    let mut message = String::from_str(prefix);
    message.append(detail);
    ServerError::Login { code: INTERNAL_SERVER_ERROR, message }
}

/// The error for a directory server that could not be reached.
pub fn ldap_connection_error(detail: &str) -> (r: ServerError)
    ensures
        r matches ServerError::Login { code, message } && code == 500 && message@
            == "Failed to connect to LDAP server: "@ + detail@,
        r.wf(),
{
    login_failure("Failed to connect to LDAP server: ", detail)
}

/// The error for a login whose session could not be saved.
pub fn session_error(detail: &str) -> (r: ServerError)
    ensures
        r matches ServerError::Login { code, message } && code == 500 && message@
            == "Failed to save session: "@ + detail@,
        r.wf(),
{
    login_failure("Failed to save session: ", detail)
}

} // verus!

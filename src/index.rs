use vstd::prelude::*;

use crate::errors::ServerError;

verus! {

/// The build that is running.
#[derive(Clone, Debug)]
pub struct Version {
    pub version: String,
    pub commit: String,
}

/// The version report: the package version, and the commit the build was
/// made from, or `not_commit` when that is unknown.
pub fn version(pkg_version: &str, commit: Option<&str>) -> (r: Version)
    ensures
        r.version@ == pkg_version@,
        r.commit@ == match commit {
            Some(c) => c@,
            None => "not_commit"@,
        },
{
    let commit = match commit {
        Some(c) => String::from_str(c),
        None => String::from_str("not_commit"),
    };
    Version { version: String::from_str(pkg_version), commit }
}

/// The health verdict. `storage` is `None` when no storage client was set
/// up, else the outcome of listing the buckets (with the error text on
/// failure). Healthy means no issue was found; otherwise every issue is
/// reported.
pub fn health(storage: Option<Result<(), String>>) -> (r: Result<String, ServerError>)
    ensures
        match storage {
            Some(Ok(())) => r matches Ok(body) && body@ == "OK"@,
            Some(Err(e)) => r matches Err(ServerError::HealthCheck { errors }) && errors@.len()
                == 1 && errors@[0]@ == "Failed to connect to S3 bucket: "@ + e@,
            None => r matches Err(ServerError::HealthCheck { errors }) && errors@.len() == 1
                && errors@[0]@ == "s3 client is not initialized"@,
        },
{
    let mut issues: Vec<String> = Vec::new();
    match storage {
        Some(Ok(())) => {},
        Some(Err(e)) => {
            let mut issue = String::from_str("Failed to connect to S3 bucket: ");
            issue.append(e.as_str());
            issues.push(issue);
        },
        None => {
            issues.push(String::from_str("s3 client is not initialized"));
        },
    }
    if issues.len() == 0 {
        Ok(String::from_str("OK"))
    } else {
        Err(ServerError::HealthCheck { errors: issues })
    }
}

} // verus!

use vstd::prelude::*;

verus! {

/// Process-wide settings, loaded once at start-up and never changed.
#[derive(Clone, Debug)]
pub struct Config {
    pub server_ip: String,
    pub bucket_name: String,
    /// API key of the DNS provider.
    pub nc_api_key: String,
}

} // verus!

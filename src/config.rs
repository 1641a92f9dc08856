//! Where the backend lives and how its endpoints are addressed.
use vstd::prelude::*;

verus! {

/// The backend address used when none is configured.
pub const DEFAULT_HOST: &'static str = "http://ollama:11434";

/// The number of backend calls that may be in flight at once.
pub const LIMITER_CAPACITY: usize = 1;

/// The address of the backend: the configured one, else the default.
pub fn backend_host(configured: Option<String>) -> (r: String)
    ensures
        configured matches Some(h) ==> r@ == h@,
        configured is None ==> r@ == DEFAULT_HOST@,
{
    match configured {
        Some(h) => h,
        None => String::from_str(DEFAULT_HOST),
    }
}

/// The generate endpoint of the backend at `host`.
pub fn generate_url(host: &str) -> (r: String)
    ensures
        r@ == host@ + "/api/generate"@,
{
    let mut url = String::from_str(host);
    url.append("/api/generate");
    url
}

/// The model-listing endpoint of the backend at `host`, polled for readiness.
pub fn tags_url(host: &str) -> (r: String)
    ensures
        r@ == host@ + "/api/tags"@,
{
    let mut url = String::from_str(host);
    url.append("/api/tags");
    url
}

} // verus!

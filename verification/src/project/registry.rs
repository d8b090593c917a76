//! What the registry client says and how it reads the registry's answers.

use vstd::prelude::*;
use vstd::string::*;

verus! {

/// HTTP client configuration. Durations are in milliseconds.
#[derive(Debug, Clone, Copy, PartialEq, Eq, Structural)]
pub struct HttpClientConfig {
    /// Connection keep-alive timeout after being returned to the pool.
    /// `None` disables the timeout.
    pub pool_idle_timeout: Option<u64>,
    /// Maximum number of idle connections to keep alive.
    pub pool_max_idle: usize,
}

impl Default for HttpClientConfig {
    /// An idle timeout of 90 seconds and no limit on idle connections.
    fn default() -> (config: Self)
        ensures
            config == (HttpClientConfig {
                pool_idle_timeout: Some(90000),
                pool_max_idle: usize::MAX,
            }),
    {
        HttpClientConfig { pool_idle_timeout: Some(90000), pool_max_idle: usize::MAX }
    }
}

/// What an answer of the registry means, by its HTTP status.
#[derive(Debug, Clone, Copy, PartialEq, Eq, Structural)]
pub enum RegistryResponse {
    /// The body holds the project record.
    Found,
    /// The registry does not know the project.
    NotFound,
    /// The registry refused the auth token.
    InvalidToken,
    /// Anything else.
    Invalid,
}

/// Reads the status of the registry's answer: 2xx carries the record, 403 is
/// a refused token, 404 an unknown project, anything else is invalid.
pub fn parse_http_response(status: u16) -> (r: RegistryResponse)
    ensures
        r == if 200 <= status <= 299 {
            RegistryResponse::Found
        } else if status == 403 {
            RegistryResponse::InvalidToken
        } else if status == 404 {
            RegistryResponse::NotFound
        } else {
            RegistryResponse::Invalid
        },
{
    if 200 <= status && status <= 299 {
        RegistryResponse::Found
    } else if status == 403 {
        RegistryResponse::InvalidToken
    } else if status == 404 {
        RegistryResponse::NotFound
    } else {
        RegistryResponse::Invalid
    }
}

/// The address of the record of the project with key `id`.
pub fn project_url(base_url: &str, id: &str) -> (url: String)
    ensures
        url@ == base_url@ + "/internal/project/key/"@ + id@,
{
    let mut url = String::from_str(base_url);
    url.append("/internal/project/key/");
    url.append(id);
    url
}

/// The value of the authorization header for `auth_token`.
pub fn bearer(auth_token: &str) -> (value: String)
    ensures
        value@ == "Bearer "@ + auth_token@,
{
    let mut value = String::from_str("Bearer ");
    value.append(auth_token);
    value
}

} // verus!

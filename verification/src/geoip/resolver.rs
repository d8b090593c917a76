//! What a resolver knows of an address.

use vstd::prelude::*;
use vstd::string::*;

verus! {

/// Location of an address, as far as it is known.
#[derive(Debug, Clone, PartialEq, Eq)]
pub struct Data {
    pub continent: Option<String>,
    pub country: Option<String>,
    pub region: Option<Vec<String>>,
    pub city: Option<String>,
}

/// Location of an address, as far as it is known.
#[derive(Debug, Clone, PartialEq, Eq)]
pub struct GeoData {
    pub continent: Option<String>,
    pub country: Option<String>,
    pub region: Option<Vec<String>>,
    pub city: Option<String>,
}

/// Failure of the resolver that works without database files.
#[derive(Debug, Clone, Copy, PartialEq, Eq, Structural)]
pub enum LocalResolverError {
    NotSupported,
}

impl LocalResolverError {
    pub fn to_string(&self) -> (s: String)
        ensures
            s@ == "Geoip data lookup is not supported"@,
    {
        String::from_str("Geoip data lookup is not supported")
    }
}

/// What a lookup that is not configured answers: a resolver without a lookup
/// function supports nothing, one with a lookup function answers with it.
pub fn local_lookup<T>(answer: Option<T>) -> (r: Result<T, LocalResolverError>)
    ensures
        match answer {
            Some(data) => r == Ok::<T, LocalResolverError>(data),
            None => r == Err::<T, LocalResolverError>(LocalResolverError::NotSupported),
        },
{
    match answer {
        Some(data) => Ok(data),
        None => Err(LocalResolverError::NotSupported),
    }
}

} // verus!

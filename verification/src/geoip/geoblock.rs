//! Request blocking by country with one policy chosen out of four.

use vstd::prelude::*;
use vstd::string::*;
use crate::geoip::block::{is_listed, listed};

verus! {

/// Configures the behavior when country information could not be retrieved.
#[derive(Debug, Clone, Copy, PartialEq, Eq, Structural)]
pub enum BlockingPolicy {
    Block,
    AllowMissingCountry,
    AllowExtractFailure,
    AllowAll,
}

#[derive(Debug, Clone, Copy, PartialEq, Eq, Structural)]
pub enum GeoBlockError {
    Blocked,
    UnableToExtractIPAddress,
    UnableToExtractGeoData,
    CountryNotFound,
}

/// What becomes of a request.
#[derive(Debug, Clone, Copy, PartialEq, Eq, Structural)]
pub enum Verdict {
    /// The request goes on to the inner service.
    Forward,
    /// The request is answered with this HTTP status.
    Reject(u16),
}

/// Screens requests by the country of the caller.
#[derive(Debug, Clone)]
pub struct GeoBlockService {
    pub blocked_countries: Vec<String>,
    pub blocking_policy: BlockingPolicy,
}

impl GeoBlockService {
    pub fn new(blocked_countries: Vec<String>, blocking_policy: BlockingPolicy) -> (service: Self)
        ensures
            service.blocked_countries == blocked_countries,
            service.blocking_policy == blocking_policy,
    {
        GeoBlockService { blocked_countries, blocking_policy }
    }

    /// What the check makes of a lookup that failed (`Err`), found no country
    /// (`Ok(None)`) or found one.
    pub open spec fn checked(self, lookup: Result<Option<String>, ()>) -> Result<(), GeoBlockError> {
        match lookup {
            Err(_) => Err(GeoBlockError::UnableToExtractGeoData),
            Ok(None) => Err(GeoBlockError::CountryNotFound),
            Ok(Some(country)) => if listed(self.blocked_countries@, country@) {
                Err(GeoBlockError::Blocked)
            } else {
                Ok(())
            },
        }
    }

    /// Checks if the country an address resolved to is allowed to access the
    /// service.
    pub fn check_ip(&self, lookup: Result<Option<String>, ()>) -> (r: Result<(), GeoBlockError>)
        ensures
            r == self.checked(lookup),
    {
        match lookup {
            Err(_) => Err(GeoBlockError::UnableToExtractGeoData),
            Ok(None) => Err(GeoBlockError::CountryNotFound),
            Ok(Some(country)) => {
                if is_listed(&self.blocked_countries, country.as_str()) {
                    Err(GeoBlockError::Blocked)
                } else {
                    Ok(())
                }
            },
        }
    }

    /// The verdict on a request whose check gave `check`: a blocked country
    /// is answered with 401; a failure to extract the address or the geo data
    /// is forgiven only under `AllowExtractFailure`, a missing country only
    /// under `AllowMissingCountry`, and answered with 500 otherwise.
    pub open spec fn verdict(self, check: Result<(), GeoBlockError>) -> Verdict {
        match check {
            Ok(_) => Verdict::Forward,
            Err(GeoBlockError::Blocked) => Verdict::Reject(401),
            Err(GeoBlockError::UnableToExtractIPAddress) | Err(
                GeoBlockError::UnableToExtractGeoData,
            ) => if self.blocking_policy == BlockingPolicy::AllowExtractFailure {
                Verdict::Forward
            } else {
                Verdict::Reject(500)
            },
            Err(GeoBlockError::CountryNotFound) => if self.blocking_policy
                == BlockingPolicy::AllowMissingCountry {
                Verdict::Forward
            } else {
                Verdict::Reject(500)
            },
        }
    }

    pub fn call(&self, check: Result<(), GeoBlockError>) -> (v: Verdict)
        ensures
            v == self.verdict(check),
    {
        match check {
            Ok(_) => Verdict::Forward,
            Err(GeoBlockError::Blocked) => Verdict::Reject(401),
            Err(GeoBlockError::UnableToExtractIPAddress)
            | Err(GeoBlockError::UnableToExtractGeoData) => {
                if self.blocking_policy == BlockingPolicy::AllowExtractFailure {
                    Verdict::Forward
                } else {
                    Verdict::Reject(500)
                }
            },
            Err(GeoBlockError::CountryNotFound) => {
                if self.blocking_policy == BlockingPolicy::AllowMissingCountry {
                    Verdict::Forward
                } else {
                    Verdict::Reject(500)
                }
            },
        }
    }
}

} // verus!

//! Blocking of requests by the country their address resolves to.

use vstd::prelude::*;
use vstd::string::*;
use crate::text::str_eq;

verus! {

/// Configures what happens to a request when its country cannot be
/// determined. A set of two flags: bit 0 allows requests whose country is
/// missing, bit 1 allows requests whose address or geo data cannot be
/// extracted.
#[derive(Debug, Clone, Copy, PartialEq, Eq, Structural)]
pub struct BlockingPolicy {
    pub bits: u8,
}

impl BlockingPolicy {
    /// Block whenever the country is not known.
    pub fn block() -> (p: Self)
        ensures
            p.bits == 0,
    {
        BlockingPolicy { bits: 0 }
    }

    pub fn allow_missing_country() -> (p: Self)
        ensures
            p.bits == 1,
    {
        BlockingPolicy { bits: 1 }
    }

    pub fn allow_extract_failure() -> (p: Self)
        ensures
            p.bits == 2,
    {
        BlockingPolicy { bits: 2 }
    }

    pub fn allow_all() -> (p: Self)
        ensures
            p.bits == 3,
    {
        BlockingPolicy { bits: 3 }
    }

    /// Every flag of `other` is set in `self`.
    pub open spec fn contains_spec(self, other: BlockingPolicy) -> bool {
        self.bits & other.bits == other.bits
    }

    #[verifier::when_used_as_spec(contains_spec)]
    pub fn contains(self, other: BlockingPolicy) -> (r: bool)
        ensures
            r == self.contains_spec(other),
    {
        self.bits & other.bits == other.bits
    }

    /// Requests whose country is missing are let through.
    pub open spec fn allows_missing_country(self) -> bool {
        self.bits & 1 == 1
    }

    /// Requests whose address or geo data cannot be extracted are let
    /// through.
    pub open spec fn allows_extract_failure(self) -> bool {
        self.bits & 2 == 2
    }
}

#[derive(Debug, Clone, Copy, PartialEq, Eq, Structural)]
pub enum Error {
    Blocked,
    UnableToExtractIPAddress,
    UnableToExtractGeoData,
    CountryNotFound,
}

impl Error {
    pub open spec fn text(self) -> Seq<char> {
        match self {
            Error::Blocked => "Country is blocked"@,
            Error::UnableToExtractIPAddress => "Unable to extract IP address"@,
            Error::UnableToExtractGeoData => "Unable to extract geo data from IP address"@,
            Error::CountryNotFound => "Country could not be found in database"@,
        }
    }

    pub fn to_string(&self) -> (s: String)
        ensures
            s@ == self.text(),
    {
        match self {
            Error::Blocked => String::from_str("Country is blocked"),
            Error::UnableToExtractIPAddress => String::from_str("Unable to extract IP address"),
            Error::UnableToExtractGeoData => String::from_str(
                "Unable to extract geo data from IP address",
            ),
            Error::CountryNotFound => String::from_str("Country could not be found in database"),
        }
    }

    /// The HTTP status a rejected request is answered with: 401 for a blocked
    /// country, 500 for every failure to determine the country.
    pub fn status(&self) -> (code: u16)
        ensures
            code == if *self == Error::Blocked {
                401u16
            } else {
                500u16
            },
    {
        match self {
            Error::Blocked => 401,
            _ => 500,
        }
    }
}

/// Whether `country` is one of `blocked`.
pub open spec fn listed(blocked: Seq<String>, country: Seq<char>) -> bool {
    exists|i: int| 0 <= i < blocked.len() && (#[trigger] blocked[i])@ == country
}

/// Whether `country` is one of `blocked`.
pub fn is_listed(blocked: &Vec<String>, country: &str) -> (r: bool)
    ensures
        r == listed(blocked@, country@),
{
    let mut i: usize = 0;
    while i < blocked.len()
        invariant
            i <= blocked.len(),
            forall|j: int| 0 <= j < i ==> (#[trigger] blocked@[j])@ != country@,
        decreases blocked.len() - i,
    {
        if str_eq(blocked[i].as_str(), country) {
            return true;
        }
        i = i + 1;
    }
    false
}

#[derive(Debug, Clone)]
pub struct CountryFilter {
    pub blocked_countries: Vec<String>,
    pub blocking_policy: BlockingPolicy,
}

impl CountryFilter {
    pub fn new(blocked_countries: Vec<String>, blocking_policy: BlockingPolicy) -> (filter: Self)
        ensures
            filter.blocked_countries == blocked_countries,
            filter.blocking_policy == blocking_policy,
    {
        CountryFilter { blocked_countries, blocking_policy }
    }

    /// What the filter makes of a lookup that failed (`Err`), found no
    /// country (`Ok(None)`) or found one.
    pub open spec fn checked(self, lookup: Result<Option<String>, ()>) -> Result<(), Error> {
        match lookup {
            Err(_) => Err(Error::UnableToExtractGeoData),
            Ok(None) => Err(Error::CountryNotFound),
            Ok(Some(country)) => if listed(self.blocked_countries@, country@) {
                Err(Error::Blocked)
            } else {
                Ok(())
            },
        }
    }

    /// Checks whether the country that an address resolved to is blocked.
    /// Returns an error if it is blocked or if the lookup has failed for any
    /// reason.
    pub fn check(&self, lookup: Result<Option<String>, ()>) -> (r: Result<(), Error>)
        ensures
            r == self.checked(lookup),
    {
        match lookup {
            Err(_) => Err(Error::UnableToExtractGeoData),
            Ok(None) => Err(Error::CountryNotFound),
            Ok(Some(country)) => {
                if is_listed(&self.blocked_countries, country.as_str()) {
                    Err(Error::Blocked)
                } else {
                    Ok(())
                }
            },
        }
    }

    /// Whether the policy upholds a failed check.
    pub open spec fn upholds(self, err: Error) -> bool {
        match err {
            Error::Blocked => true,
            Error::UnableToExtractIPAddress => !self.blocking_policy.allows_extract_failure(),
            Error::UnableToExtractGeoData => !self.blocking_policy.allows_extract_failure(),
            Error::CountryNotFound => !self.blocking_policy.allows_missing_country(),
        }
    }

    /// Applies the blocking policy to the result of a check, which may
    /// forgive some of the errors. A blocked country is never forgiven.
    pub fn apply_policy(&self, check_result: Result<(), Error>) -> (r: Result<(), Error>)
        ensures
            r == match check_result {
                Ok(_) => Ok::<(), Error>(()),
                Err(err) => if self.upholds(err) {
                    Err::<(), Error>(err)
                } else {
                    Ok::<(), Error>(())
                },
            },
    {
        match check_result {
            Err(err) => {
                let policy = self.blocking_policy;
                let is_blocked = match err {
                    Error::UnableToExtractIPAddress | Error::UnableToExtractGeoData => {
                        !policy.contains(BlockingPolicy::allow_extract_failure())
                    },
                    Error::CountryNotFound => !policy.contains(
                        BlockingPolicy::allow_missing_country(),
                    ),
                    Error::Blocked => true,
                };
                if is_blocked {
                    Err(err)
                } else {
                    Ok(())
                }
            },
            Ok(_) => Ok(()),
        }
    }

    /// The status to answer a request with, or `None` to let it through.
    /// `address_known` says whether the caller's address could be extracted;
    /// `lookup` is what the address resolved to.
    pub fn screen(&self, address_known: bool, lookup: Result<Option<String>, ()>) -> (r: Option<u16>)
        ensures
            r == match (if address_known {
                self.checked(lookup)
            } else {
                Err(Error::UnableToExtractIPAddress)
            }) {
                Ok(_) => None::<u16>,
                Err(err) => if self.upholds(err) {
                    Some(if err == Error::Blocked {
                        401u16
                    } else {
                        500u16
                    })
                } else {
                    None::<u16>
                },
            },
    {
        let result = if address_known {
            self.check(lookup)
        } else {
            Err(Error::UnableToExtractIPAddress)
        };
        match self.apply_policy(result) {
            Ok(_) => None,
            Err(err) => Some(err.status()),
        }
    }
}

/// A blocked country is rejected under every policy, and the permissive
/// policy forgives every failure to determine the country.
pub proof fn lemma_policy_bounds(filter: CountryFilter, err: Error)
    ensures
        filter.upholds(Error::Blocked),
        filter.blocking_policy.bits == 3 && err != Error::Blocked ==> !filter.upholds(err),
        filter.blocking_policy.bits == 0 ==> filter.upholds(err),
{
    let bits = filter.blocking_policy.bits;
    assert(bits == 3 ==> bits & 1 == 1 && bits & 2 == 2) by (bit_vector);
    assert(bits == 0 ==> bits & 1 != 1 && bits & 2 != 2) by (bit_vector);
}

} // verus!

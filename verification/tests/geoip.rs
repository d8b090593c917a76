use wc_utils::geoip::block::{is_listed, BlockingPolicy, CountryFilter, Error};
use wc_utils::geoip::geoblock::{
    BlockingPolicy as ServicePolicy, GeoBlockError, GeoBlockService, Verdict,
};
use wc_utils::geoip::resolver::{local_lookup, LocalResolverError};

fn filter(policy: BlockingPolicy) -> CountryFilter {
    CountryFilter::new(vec!["CU".to_string(), "IR".to_string(), "KP".to_string()], policy)
}

fn found(country: &str) -> Result<Option<String>, ()> {
    Ok(Some(country.to_string()))
}

#[test]
fn blocked_country_is_rejected() {
    let f = filter(BlockingPolicy::allow_all());
    assert_eq!(f.check(found("IR")), Err(Error::Blocked));
    assert_eq!(f.apply_policy(f.check(found("IR"))), Err(Error::Blocked));
    assert_eq!(f.screen(true, found("KP")), Some(401));
    assert_eq!(f.check(found("US")), Ok(()));
    assert_eq!(f.screen(true, found("US")), None);
    // Country codes are compared as they are.
    assert_eq!(f.check(found("ir")), Ok(()));
}

#[test]
fn lookup_failures_follow_the_policy() {
    let strict = filter(BlockingPolicy::block());
    assert_eq!(strict.check(Err(())), Err(Error::UnableToExtractGeoData));
    assert_eq!(strict.check(Ok(None)), Err(Error::CountryNotFound));
    assert_eq!(strict.screen(true, Err(())), Some(500));
    assert_eq!(strict.screen(true, Ok(None)), Some(500));
    assert_eq!(strict.screen(false, found("US")), Some(500));

    let missing = filter(BlockingPolicy::allow_missing_country());
    assert_eq!(missing.screen(true, Ok(None)), None);
    assert_eq!(missing.screen(true, Err(())), Some(500));
    assert_eq!(missing.screen(false, found("US")), Some(500));

    let failure = filter(BlockingPolicy::allow_extract_failure());
    assert_eq!(failure.screen(true, Ok(None)), Some(500));
    assert_eq!(failure.screen(true, Err(())), None);
    assert_eq!(failure.screen(false, found("IR")), None);

    let all = filter(BlockingPolicy::allow_all());
    assert_eq!(all.screen(true, Ok(None)), None);
    assert_eq!(all.screen(true, Err(())), None);
    assert_eq!(all.screen(false, Ok(None)), None);
}

#[test]
fn apply_policy_keeps_the_error_it_upholds() {
    let f = filter(BlockingPolicy::allow_missing_country());
    assert_eq!(f.apply_policy(Ok(())), Ok(()));
    assert_eq!(f.apply_policy(Err(Error::CountryNotFound)), Ok(()));
    assert_eq!(
        f.apply_policy(Err(Error::UnableToExtractIPAddress)),
        Err(Error::UnableToExtractIPAddress)
    );
    assert_eq!(
        f.apply_policy(Err(Error::UnableToExtractGeoData)),
        Err(Error::UnableToExtractGeoData)
    );
}

#[test]
fn policy_flags() {
    assert_eq!(BlockingPolicy::block().bits, 0b00);
    assert_eq!(BlockingPolicy::allow_missing_country().bits, 0b01);
    assert_eq!(BlockingPolicy::allow_extract_failure().bits, 0b10);
    assert_eq!(BlockingPolicy::allow_all().bits, 0b11);
    assert!(BlockingPolicy::allow_all().contains(BlockingPolicy::allow_missing_country()));
    assert!(BlockingPolicy::allow_all().contains(BlockingPolicy::allow_extract_failure()));
    assert!(!BlockingPolicy::allow_missing_country().contains(BlockingPolicy::allow_all()));
    assert!(BlockingPolicy::block().contains(BlockingPolicy::block()));
    assert!(!BlockingPolicy::block().contains(BlockingPolicy::allow_extract_failure()));
}

#[test]
fn block_error_text_and_status() {
    assert_eq!(Error::Blocked.to_string(), "Country is blocked");
    assert_eq!(
        Error::UnableToExtractIPAddress.to_string(),
        "Unable to extract IP address"
    );
    assert_eq!(
        Error::UnableToExtractGeoData.to_string(),
        "Unable to extract geo data from IP address"
    );
    assert_eq!(
        Error::CountryNotFound.to_string(),
        "Country could not be found in database"
    );
    assert_eq!(Error::Blocked.status(), 401);
    assert_eq!(Error::CountryNotFound.status(), 500);
}

#[test]
fn listed_countries() {
    let blocked = vec!["CU".to_string(), "IR".to_string()];
    assert!(is_listed(&blocked, "CU"));
    assert!(is_listed(&blocked, "IR"));
    assert!(!is_listed(&blocked, "I"));
    assert!(!is_listed(&vec![], "IR"));
}

#[test]
fn service_verdicts() {
    let service = |policy| GeoBlockService::new(vec!["IR".to_string()], policy);
    let s = service(ServicePolicy::Block);
    assert_eq!(s.check_ip(found("IR")), Err(GeoBlockError::Blocked));
    assert_eq!(s.check_ip(found("US")), Ok(()));
    assert_eq!(s.check_ip(Ok(None)), Err(GeoBlockError::CountryNotFound));
    assert_eq!(s.check_ip(Err(())), Err(GeoBlockError::UnableToExtractGeoData));
    assert_eq!(s.call(Ok(())), Verdict::Forward);
    assert_eq!(s.call(Err(GeoBlockError::Blocked)), Verdict::Reject(401));
    assert_eq!(s.call(Err(GeoBlockError::CountryNotFound)), Verdict::Reject(500));
    assert_eq!(
        s.call(Err(GeoBlockError::UnableToExtractIPAddress)),
        Verdict::Reject(500)
    );

    let s = service(ServicePolicy::AllowMissingCountry);
    assert_eq!(s.call(Err(GeoBlockError::CountryNotFound)), Verdict::Forward);
    assert_eq!(
        s.call(Err(GeoBlockError::UnableToExtractGeoData)),
        Verdict::Reject(500)
    );

    let s = service(ServicePolicy::AllowExtractFailure);
    assert_eq!(s.call(Err(GeoBlockError::CountryNotFound)), Verdict::Reject(500));
    assert_eq!(s.call(Err(GeoBlockError::UnableToExtractGeoData)), Verdict::Forward);
    assert_eq!(
        s.call(Err(GeoBlockError::UnableToExtractIPAddress)),
        Verdict::Forward
    );

    let s = service(ServicePolicy::AllowAll);
    assert_eq!(s.call(Err(GeoBlockError::Blocked)), Verdict::Reject(401));
    assert_eq!(s.call(Err(GeoBlockError::CountryNotFound)), Verdict::Reject(500));
}

#[test]
fn local_resolver_without_lookup_is_not_supported() {
    assert_eq!(local_lookup(Some(5)), Ok(5));
    assert_eq!(local_lookup::<u8>(None), Err(LocalResolverError::NotSupported));
    assert_eq!(
        LocalResolverError::NotSupported.to_string(),
        "Geoip data lookup is not supported"
    );
}

/// A blocking list with no subdivisions blocks the country if a match is
/// found.
#[test]
fn test_country_blocked() {
    let f = CountryFilter::new(
        vec!["CU".to_string(), "IR".to_string(), "KP".to_string()],
        BlockingPolicy::block(),
    );
    assert_eq!(f.screen(true, found("CU")), Some(401));
}

/// A blocking list with no subdivisions doesn't block if the country doesn't
/// match.
#[test]
fn test_country_non_blocked() {
    let f = CountryFilter::new(
        vec!["IR".to_string(), "KP".to_string()],
        BlockingPolicy::block(),
    );
    assert_eq!(f.screen(true, found("CU")), None);
}

#[test]
fn test_blocked_country() {
    let s = GeoBlockService::new(
        vec!["Derkaderkastan".to_string(), "Quran".to_string(), "Tristan".to_string()],
        ServicePolicy::Block,
    );
    assert_eq!(
        s.call(s.check_ip(found("Derkaderkastan"))),
        Verdict::Reject(401)
    );
}

#[test]
fn test_non_blocked_country() {
    let s = GeoBlockService::new(
        vec!["Quran".to_string(), "Tristan".to_string()],
        ServicePolicy::Block,
    );
    assert_eq!(s.call(s.check_ip(found("Derkaderkastan"))), Verdict::Forward);
}

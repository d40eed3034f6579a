use deprader::cve::osv_client::{check_osv_status, osv_query_request, Ecosystem, OsvQueryResponse};

#[test]
fn ecosystem_as_osv_str_matches_osv_schema_names() {
    assert_eq!(Ecosystem::Npm.as_osv_str(), "npm");
    assert_eq!(Ecosystem::PyPI.as_osv_str(), "PyPI");
    assert_eq!(Ecosystem::CratesIo.as_osv_str(), "crates.io");
}

#[test]
fn query_request_carries_name_ecosystem_and_version() {
    let request = osv_query_request("lodash", Ecosystem::Npm, "4.17.4");
    assert_eq!(request.version, "4.17.4");
    assert_eq!(request.package.name, "lodash");
    assert_eq!(request.package.ecosystem, "npm");
    let request = osv_query_request("serde", Ecosystem::CratesIo, "1.0.0");
    assert_eq!(request.package.ecosystem, "crates.io");
}

#[test]
fn only_success_statuses_are_accepted() {
    assert_eq!(check_osv_status(200), Ok(()));
    assert_eq!(check_osv_status(204), Ok(()));
    assert_eq!(check_osv_status(299), Ok(()));
    assert_eq!(check_osv_status(199), Err(199));
    assert_eq!(check_osv_status(300), Err(300));
    assert_eq!(check_osv_status(404), Err(404));
    assert_eq!(check_osv_status(500), Err(500));
}

#[test]
fn default_response_has_no_vulnerabilities() {
    let response = OsvQueryResponse::default();
    assert!(response.vulns.is_empty());
}

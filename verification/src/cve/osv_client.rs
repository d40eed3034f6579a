//! The data and decisions of a minimal client for the OSV.dev vulnerability
//! database: a `(package name, ecosystem, version)` triple is turned into the
//! body of a `POST /v1/query` request, the reply's status is judged, and the
//! reply's body is held in the typed records below. The HTTP exchange itself
//! and the JSON (de)serialisation happen outside this library.

use vstd::prelude::*;

verus! {

/// The OSV endpoint that answers package/version queries.
pub const OSV_QUERY_URL: &'static str = "https://api.osv.dev/v1/query";

/// Package registries that OSV can be queried against.
#[derive(Debug, Clone, Copy, PartialEq, Eq)]
pub enum Ecosystem {
    Npm,
    PyPI,
    CratesIo,
}

/// The ecosystem name OSV expects in a query.
pub open spec fn osv_name(ecosystem: Ecosystem) -> Seq<char> {
    match ecosystem {
        Ecosystem::Npm => "npm"@,
        Ecosystem::PyPI => "PyPI"@,
        Ecosystem::CratesIo => "crates.io"@,
    }
}

impl Ecosystem {
    /// The ecosystem name OSV expects in a query, exactly as the OSV schema
    /// documents it.
    pub fn as_osv_str(self) -> (name: &'static str)
        ensures
            name@ == osv_name(self),
    {
        match self {
            Ecosystem::Npm => "npm",
            Ecosystem::PyPI => "PyPI",
            Ecosystem::CratesIo => "crates.io",
        }
    }
}

/// The package part of a query: a name within an ecosystem.
pub struct OsvPackageQuery {
    pub name: String,
    pub ecosystem: String,
}

/// Body of `POST /v1/query`: one package, pinned to one version.
pub struct OsvQueryRequest {
    pub version: String,
    pub package: OsvPackageQuery,
}

/// The query for `package_name` at exactly `version` in `ecosystem`.
pub fn osv_query_request(package_name: &str, ecosystem: Ecosystem, version: &str) -> (request:
    OsvQueryRequest)
    ensures
        request.version@ == version@,
        request.package.name@ == package_name@,
        request.package.ecosystem@ == osv_name(ecosystem),
{
    OsvQueryRequest {
        version: version.to_owned(),
        package: OsvPackageQuery {
            name: package_name.to_owned(),
            ecosystem: ecosystem.as_osv_str().to_owned(),
        },
    }
}

/// Judges the HTTP status of OSV's reply: a success code (2xx) lets the body
/// be decoded, anything else is reported back as the unexpected status.
pub fn check_osv_status(status: u16) -> (verdict: Result<(), u16>)
    ensures
        verdict == if 200 <= status && status < 300 {
            Ok::<(), u16>(())
        } else {
            Err::<(), u16>(status)
        },
{
    if 200 <= status && status < 300 {
        Ok(())
    } else {
        Err(status)
    }
}

/// The package identity as OSV echoes it back inside an `affected` entry.
#[derive(Debug, Clone)]
pub struct OsvPackage {
    pub name: String,
    pub ecosystem: String,
    /// Package URL, e.g. `pkg:npm/lodash`; not present for every ecosystem.
    pub purl: Option<String>,
}

/// One event in a version range: where a vulnerability was introduced,
/// fixed, or last known to affect a version.
#[derive(Debug, Clone)]
pub struct OsvEvent {
    pub introduced: Option<String>,
    pub fixed: Option<String>,
    pub last_affected: Option<String>,
    pub limit: Option<String>,
}

/// A version range (e.g. a SEMVER range) bounding the affected versions.
#[derive(Debug, Clone)]
pub struct OsvRange {
    pub range_type: String,
    pub events: Vec<OsvEvent>,
}

/// One `affected` entry: a package plus the ranges and/or explicit versions
/// that are affected.
#[derive(Debug, Clone)]
pub struct OsvAffected {
    pub package: Option<OsvPackage>,
    pub ranges: Vec<OsvRange>,
    pub versions: Vec<String>,
}

/// A severity score reported for a vulnerability, e.g. a CVSS vector.
#[derive(Debug, Clone)]
pub struct OsvSeverity {
    pub severity_type: String,
    pub score: String,
}

/// A reference URL for a vulnerability (advisory, fix commit, report, ...).
#[derive(Debug, Clone)]
pub struct OsvReference {
    pub reference_type: String,
    pub url: String,
}

/// One vulnerability record as returned by OSV.
#[derive(Debug, Clone)]
pub struct OsvVulnerability {
    pub id: String,
    pub summary: Option<String>,
    pub details: Option<String>,
    pub aliases: Vec<String>,
    pub modified: Option<String>,
    pub published: Option<String>,
    pub severity: Vec<OsvSeverity>,
    pub affected: Vec<OsvAffected>,
    pub references: Vec<OsvReference>,
}

/// Reply to `POST /v1/query`: the vulnerabilities matching the queried
/// package and version; empty when OSV knows of none.
#[derive(Debug, Clone)]
pub struct OsvQueryResponse {
    pub vulns: Vec<OsvVulnerability>,
}

impl Default for OsvQueryResponse {
    fn default() -> (response: Self)
        ensures
            response.vulns@.len() == 0,
    {
        OsvQueryResponse { vulns: Vec::new() }
    }
}

} // verus!

//! The OSV record and its nested types, as the OSV schema defines them.
//! See <https://ossf.github.io/osv-schema/>.
use vstd::prelude::*;

use crate::ecosystem::EcosystemWithSuffix;
use crate::timestamp::Timestamp;

verus! {

/// Arbitrary JSON data that the schema leaves to databases and ecosystems.
#[verifier::external_type_specification]
#[verifier::external_body]
pub struct ExJsonValue(serde_json::Value);

/// Identifier of an OSV record (e.g. `RUSTSEC-2024-0001`).
pub type OsvRecordId = String;

/// Package name as used within its ecosystem.
pub type PackageName = String;

/// Root OSV vulnerability record.
#[derive(Debug, Clone, PartialEq, Eq)]
pub struct OsvRecord {
    /// Unique vulnerability identifier (e.g. `RUSTSEC-2024-0001`).
    pub id: OsvRecordId,
    /// Instant of the last modification.
    pub modified: Timestamp,
    /// Schema version string.
    pub schema_version: Option<String>,
    /// Instant when the record was first published.
    pub published: Option<Timestamp>,
    /// Instant when the record was withdrawn, if applicable.
    pub withdrawn: Option<Timestamp>,
    /// Alternative identifiers (e.g. CVE IDs) for the same vulnerability.
    pub aliases: Vec<String>,
    /// Related vulnerability IDs that are not direct aliases.
    pub related: Vec<String>,
    /// Upstream vulnerability references.
    pub upstream: Vec<String>,
    /// Brief, one-line description of the vulnerability.
    pub summary: Option<String>,
    /// Full description of the vulnerability (may use Markdown).
    pub details: Option<String>,
    /// Severity ratings at the root level.
    pub severity: Vec<Severity>,
    /// Packages and version ranges affected by this vulnerability.
    pub affected: Vec<Affected>,
    /// External references (advisories, fixes, articles, etc.).
    pub references: Vec<Reference>,
    /// Credits for people or organizations involved in the report.
    pub credits: Vec<Credit>,
    /// Arbitrary database-specific data.
    pub database_specific: Option<serde_json::Value>,
}

/// A single affected package entry.
#[derive(Debug, Clone, PartialEq, Eq)]
pub struct Affected {
    /// The affected package identity.
    pub package: Option<Package>,
    /// Package-level severity (only valid when the root-level severity is absent).
    pub severity: Vec<Severity>,
    /// Version ranges within which the package is affected.
    pub ranges: Vec<Range>,
    /// Explicit list of affected version strings.
    pub versions: Vec<String>,
    /// Ecosystem-specific additional data.
    pub ecosystem_specific: Option<serde_json::Value>,
    /// Database-specific additional data.
    pub database_specific: Option<serde_json::Value>,
}

/// Identity of an affected package within its ecosystem.
#[derive(Debug, Clone, PartialEq, Eq)]
pub struct Package {
    /// Ecosystem name, optionally with a suffix (e.g. `"Debian:10"`).
    pub ecosystem: EcosystemWithSuffix,
    /// Package name as used within the ecosystem.
    pub name: PackageName,
    /// Optional Package URL (<https://github.com/package-url/purl-spec>).
    pub purl: Option<String>,
}

/// A version range describing when a package is vulnerable.
#[derive(Debug, Clone, PartialEq, Eq)]
pub struct Range {
    /// The versioning scheme.
    pub range_type: RangeType,
    /// Repository URL, required when `range_type` is [`RangeType::GIT`].
    pub repo: Option<String>,
    /// Version events that define the affected range.
    pub events: Vec<Event>,
    /// Database-specific additional data.
    pub database_specific: Option<serde_json::Value>,
}

/// Versioning scheme of a [`Range`].
#[allow(clippy::upper_case_acronyms)]
#[derive(Debug, Clone, Copy, PartialEq, Eq, Structural)]
pub enum RangeType {
    /// Git commit hashes (full 40- or 64-character hex strings, or `"0"`).
    GIT,
    /// Semantic versioning (<https://semver.org/>).
    SEMVER,
    /// Ecosystem-specific versioning (e.g. Maven, `PyPI`).
    ECOSYSTEM,
}

/// A version event that bounds an affected [`Range`].
#[derive(Debug, Clone, PartialEq, Eq)]
pub enum Event {
    /// The (inclusive) version at which the vulnerability was introduced; `"0"` stands for the
    /// beginning of all versions.
    Introduced {
        /// Version string or commit hash at which the vulnerability was introduced.
        introduced: String,
    },
    /// The (exclusive) version at which the vulnerability was fixed.
    Fixed {
        /// Version string or commit hash at which the fix was released.
        fixed: String,
    },
    /// The last (inclusive) version that is affected.
    LastAffected {
        /// Version string or commit hash of the last affected version.
        last_affected: String,
    },
    /// An exclusive upper bound that limits the range regardless of other events.
    Limit {
        /// Version string or commit hash acting as the upper limit.
        limit: String,
    },
}

/// An external reference for the vulnerability.
#[derive(Debug, Clone, PartialEq, Eq)]
pub struct Reference {
    /// Classification of this reference.
    pub reference_type: ReferenceType,
    /// URI of the reference.
    pub url: String,
}

/// Classification of an external [`Reference`].
#[allow(clippy::upper_case_acronyms)]
#[derive(Debug, Clone, Copy, PartialEq, Eq, Structural)]
pub enum ReferenceType {
    /// A published security advisory.
    ADVISORY,
    /// An article or blog post.
    ARTICLE,
    /// A tool or method for detecting the vulnerability.
    DETECTION,
    /// A discussion thread (e.g. GitHub issue, mailing list).
    DISCUSSION,
    /// The first report of the vulnerability.
    REPORT,
    /// A patch or commit that fixes the vulnerability.
    FIX,
    /// A patch or commit that introduced the vulnerability.
    INTRODUCED,
    /// A git commit or tag (generic).
    GIT,
    /// The package in a registry.
    PACKAGE,
    /// Evidence supporting the existence of the vulnerability.
    EVIDENCE,
    /// Any other web resource.
    WEB,
}

/// A severity rating expressed in a specific scoring system.
#[derive(Debug, Clone, PartialEq, Eq)]
pub struct Severity {
    /// The scoring system used.
    pub severity_type: SeverityType,
    /// Score string whose format is defined by [`SeverityType`].
    pub score: String,
}

/// Supported vulnerability severity scoring systems.
#[derive(Debug, Clone, Copy, PartialEq, Eq, Structural)]
pub enum SeverityType {
    /// Common Vulnerability Scoring System v2 (`CVSS_V2`).
    CvssV2,
    /// Common Vulnerability Scoring System v3 (`CVSS_V3`).
    CvssV3,
    /// Common Vulnerability Scoring System v4 (`CVSS_V4`).
    CvssV4,
    /// Ubuntu severity levels (`negligible`, `low`, `medium`, `high`, `critical`).
    Ubuntu,
}

/// A person or organization credited in a report.
#[derive(Debug, Clone, PartialEq, Eq)]
pub struct Credit {
    /// Name of the credited party.
    pub name: String,
    /// Ways to contact the credited party.
    pub contact: Vec<String>,
    /// The role of the credited party.
    pub credit_type: Option<CreditType>,
}

/// Role of a credited party.
#[allow(clippy::upper_case_acronyms)]
#[derive(Debug, Clone, Copy, PartialEq, Eq, Structural)]
pub enum CreditType {
    /// Found the vulnerability.
    FINDER,
    /// Reported the vulnerability.
    REPORTER,
    /// Validated the vulnerability.
    ANALYST,
    /// Coordinated the disclosure.
    COORDINATOR,
    /// Prepared the fix.
    REMEDIATION_DEVELOPER,
    /// Reviewed the fix.
    REMEDIATION_REVIEWER,
    /// Verified the fix.
    REMEDIATION_VERIFIER,
    /// A tool used to find or fix the vulnerability.
    TOOL,
    /// Supported the work.
    SPONSOR,
    /// Any other role.
    OTHER,
}

} // verus!

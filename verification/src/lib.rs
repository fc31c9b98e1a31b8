//! Working with the OSV (Open Source Vulnerabilities) ecosystem: the record types, the
//! evaluation of a pinned package against a record, and the rules by which a local copy of
//! the OSV database is laid out and kept up to date.
//!
//! Official [OSV Documentation](https://google.github.io/osv.dev/) ·
//! [OSV Schema](https://ossf.github.io/osv-schema/)
use vstd::prelude::*;

pub mod db;
pub mod downloader;
pub mod ecosystem;
pub mod evaluation;
pub mod manifest;
pub mod modified_record;
pub mod osv_gs;
pub mod package;
pub mod text;
pub mod timestamp;
pub mod types;
pub mod version;

pub use crate::ecosystem::{Ecosystem, EcosystemParseError, EcosystemWithSuffix};
pub use crate::evaluation::{evaluate, Outcome, RangeComparisons, VersionCmp};
pub use crate::manifest::{Manifest, ManifestError, PackageError, PackageIter};
pub use crate::modified_record::{ModifiedIndexErr, OsvModifiedRecord, ParseModifiedRecordErr};
pub use crate::osv_gs::{OsvGsEcosystem, OsvGsEcosystems};
pub use crate::package::ManifestPackage;
pub use crate::timestamp::Timestamp;
pub use crate::types::{
    Affected, Credit, CreditType, Event, OsvRecord, OsvRecordId, PackageName, Range, RangeType,
    Reference, ReferenceType, Severity, SeverityType,
};
pub use crate::version::VersionError;

verus! {

} // verus!

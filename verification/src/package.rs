//! Dependencies pinned in a project's lock file.
use vstd::prelude::*;

use crate::ecosystem::EcosystemWithSuffix;
use crate::types::PackageName;

verus! {

/// A single dependency pinned in a project's lock file: one package at an exact version inside
/// a specific OSV ecosystem, the minimum needed to query vulnerability records.
#[derive(Debug, PartialEq, Eq, Hash)]
pub struct Package {
    /// The package name as it appears in the ecosystem registry.
    pub name: PackageName,
    /// The exact pinned version string from the lock file.
    pub version: String,
    /// The OSV ecosystem this package belongs to (e.g. `"crates.io"`, `"PyPI"`, `"npm"`).
    pub ecosystem: EcosystemWithSuffix,
}

/// The name the analyzer's callers use for a [`Package`] taken from a manifest.
pub type ManifestPackage = Package;

impl Clone for Package {
    fn clone(&self) -> (r: Package)
        ensures
            r == *self,
    {
        Package {
            name: self.name.clone(),
            version: self.version.clone(),
            ecosystem: self.ecosystem.clone(),
        }
    }
}

} // verus!

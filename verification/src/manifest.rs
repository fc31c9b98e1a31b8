//! [`Manifest`]: the packages extracted from a project's lock file.
use vstd::prelude::*;

use crate::package::Package;

verus! {

/// Error of reading one package out of an extracted manifest.
#[derive(Debug, PartialEq, Eq)]
pub enum PackageError {
    /// The extractor could not produce this package.
    Extraction(String),
}

/// Errors of extracting the packages of a manifest.
#[derive(Debug, PartialEq, Eq)]
pub enum ManifestError {
    /// The ecosystem string holds an interior null byte, at the given byte position.
    InvalidString(usize),
    /// The extractor failed to parse the manifest data.
    Extraction(String),
}

impl Clone for PackageError {
    fn clone(&self) -> (r: PackageError)
        ensures
            r == *self,
    {
        match self {
            PackageError::Extraction(message) => PackageError::Extraction(message.clone()),
        }
    }
}

/// The packages extracted from a manifest, in the order the extractor listed them; a package
/// that could not be read stands as its error.
#[derive(Debug)]
pub struct Manifest {
    items: Vec<Result<Package, PackageError>>,
}

impl View for Manifest {
    type V = Seq<Result<Package, PackageError>>;

    closed spec fn view(&self) -> Seq<Result<Package, PackageError>> {
        self.items@
    }
}

fn clone_item(item: &Result<Package, PackageError>) -> (r: Result<Package, PackageError>)
    ensures
        r == *item,
{
    match item {
        Ok(p) => Ok(p.clone()),
        Err(e) => Err(e.clone()),
    }
}

impl Manifest {
    /// The manifest holding `items`, in this order.
    pub fn new(items: Vec<Result<Package, PackageError>>) -> (m: Manifest)
        ensures
            m@ == items@,
    {
        Manifest { items }
    }

    /// Returns the number of packages in the list.
    pub fn len(&self) -> (n: usize)
        ensures
            n == self@.len(),
    {
        self.items.len()
    }

    /// Returns `true` if the list contains no packages.
    pub fn is_empty(&self) -> (r: bool)
        ensures
            r == (self@.len() == 0),
    {
        self.len() == 0
    }

    /// Returns an iterator over the packages in this manifest.
    pub fn iter(&self) -> (it: PackageIter<'_>)
        ensures
            it.remaining() == self@,
    {
        PackageIter { manifest: self, idx: 0 }
    }
}

/// An iterator over the packages of a [`Manifest`].
pub struct PackageIter<'a> {
    /// The source manifest.
    manifest: &'a Manifest,
    /// Current index.
    idx: usize,
}

impl<'a> PackageIter<'a> {
    /// The packages not yet yielded, in order.
    pub closed spec fn remaining(&self) -> Seq<Result<Package, PackageError>> {
        self.manifest@.subrange(self.idx as int, self.manifest@.len() as int)
    }

    #[verifier::type_invariant]
    spec fn within(self) -> bool {
        self.idx <= self.manifest@.len()
    }

    /// Yields the next package, or `None` once all have been yielded.
    pub fn next(&mut self) -> (r: Option<Result<Package, PackageError>>)
        ensures
            old(self).remaining().len() == 0 ==> r is None && final(self).remaining() == old(
                self,
            ).remaining(),
            old(self).remaining().len() > 0 ==> r == Some(old(self).remaining()[0])
                && final(self).remaining() == old(self).remaining().drop_first(),
    {
        proof {
            use_type_invariant(&*self);
        }
        if self.idx >= self.manifest.items.len() {
            return None;
        }
        let idx = self.idx;
        let item = clone_item(&self.manifest.items[idx]);
        self.idx = idx + 1;
        assert(self.remaining() =~= old(self).remaining().drop_first());
        Some(item)
    }
}

} // verus!

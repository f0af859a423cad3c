//! The input of the check operation and the list of versions it reports.
use vstd::prelude::*;

verus! {

/// The input of a check: the resource's configuration and, after the first
/// check, the last version seen.
#[derive(Debug, Clone, PartialEq, Eq)]
pub struct CheckResource<S, V> {
    pub version: Option<V>,
    pub source: S,
}

/// The versions a check reports, in the order they were added.
#[derive(Debug, Clone)]
pub struct VersionBuilder<V> {
    versions: Vec<V>,
}

impl<V> View for VersionBuilder<V> {
    type V = Seq<V>;

    closed spec fn view(&self) -> Seq<V> {
        self.versions@
    }
}

impl<V> VersionBuilder<V> {
    /// A list with no version.
    pub fn new() -> (r: Self)
        ensures
            r@ == Seq::<V>::empty(),
    {
        VersionBuilder { versions: Vec::new() }
    }

    /// The list with `version` added at its end; nothing is reordered or
    /// dropped.
    pub fn version(self, version: V) -> (r: Self)
        ensures
            r@ == self@.push(version),
    {
        let mut versions = self.versions;
        versions.push(version);
        VersionBuilder { versions }
    }

    /// The versions, in the order they were added.
    pub fn versions(&self) -> (r: &Vec<V>)
        ensures
            r@ == self@,
    {
        &self.versions
    }

    /// The versions, in the order they were added, taken out of the list.
    pub fn into_versions(self) -> (r: Vec<V>)
        ensures
            r@ == self@,
    {
        self.versions
    }
}

impl<V> Default for VersionBuilder<V> {
    fn default() -> (r: Self)
        ensures
            r@ == Seq::<V>::empty(),
    {
        VersionBuilder::new()
    }
}

} // verus!

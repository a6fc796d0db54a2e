//! Image versions as the registry reports them.

use vstd::prelude::*;

verus! {

/// The container part of a version's metadata: its tags, in the registry's
/// order.
#[derive(Debug)]
pub struct VersionContainer {
    pub tags: Vec<String>,
}

/// The metadata of a version.
#[derive(Debug)]
pub struct VersionContainerMetadata {
    pub container: VersionContainer,
}

/// One version of an image.
#[derive(Debug)]
pub struct Version {
    /// The registry's identifier of the version.
    pub id: i32,
    pub name: String,
    pub html_url: String,
    pub metadata: VersionContainerMetadata,
}

impl Version {
    /// Whether the version carries no tag. Only such a version may be deleted.
    pub open spec fn untagged(&self) -> bool {
        self.metadata.container.tags@.len() == 0
    }

    /// A version with the given identifier, name, page address and tags.
    pub fn new(id: i32, name: String, html_url: String, tags: Vec<String>) -> (version: Version)
        ensures
            version.id == id,
            version.name == name,
            version.html_url == html_url,
            version.metadata.container.tags == tags,
    {
        Version {
            id,
            name,
            html_url,
            metadata: VersionContainerMetadata { container: VersionContainer { tags } },
        }
    }

    /// Whether the version carries no tag.
    pub fn is_untagged(&self) -> (yes: bool)
        ensures
            yes == self.untagged(),
    {
        self.metadata.container.tags.len() == 0
    }
}

} // verus!

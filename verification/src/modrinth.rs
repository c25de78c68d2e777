//! Records of the remote mod catalog: projects, versions, their files and
//! declared dependency edges. An unverified fetcher parses the catalog's
//! responses into these plain values.

use vstd::prelude::*;

verus! {

/// Identifier of a project in the remote catalog.
#[derive(Debug, PartialEq, Eq)]
pub struct ProjectId(pub String);

impl Clone for ProjectId {
    fn clone(&self) -> (r: Self)
        ensures
            r == *self,
    {
        ProjectId(self.0.clone())
    }
}

/// Human-readable identifier of a project in the remote catalog.
#[derive(Debug, PartialEq, Eq)]
pub struct ProjectSlug(pub String);

impl Clone for ProjectSlug {
    fn clone(&self) -> (r: Self)
        ensures
            r == *self,
    {
        ProjectSlug(self.0.clone())
    }
}

/// Identifier of one published version of a project.
#[derive(Debug, PartialEq, Eq)]
pub struct VersionId(pub String);

impl Clone for VersionId {
    fn clone(&self) -> (r: Self)
        ensures
            r == *self,
    {
        VersionId(self.0.clone())
    }
}

/// Content hashes the catalog publishes for one file of a version.
#[derive(Debug, PartialEq, Eq)]
pub struct FileHashes {
    pub sha1: String,
}

impl Clone for FileHashes {
    fn clone(&self) -> (r: Self)
        ensures
            r == *self,
    {
        FileHashes { sha1: self.sha1.clone() }
    }
}

/// One downloadable file of a published version. Only files marked
/// `primary` are ever downloaded.
#[derive(Debug, PartialEq, Eq)]
pub struct VersionFile {
    pub hashes: FileHashes,
    pub url: String,
    pub filename: String,
    pub primary: bool,
}

impl Clone for VersionFile {
    fn clone(&self) -> (r: Self)
        ensures
            r == *self,
    {
        VersionFile {
            hashes: self.hashes.clone(),
            url: self.url.clone(),
            filename: self.filename.clone(),
            primary: self.primary,
        }
    }
}

/// A declared dependency edge of a version. The catalog may omit the type
/// entirely; classification treats that absence as "required".
#[derive(Debug, PartialEq, Eq)]
pub struct Dependency {
    pub project_id: ProjectId,
    pub dependency_type: Option<String>,
}

impl Clone for Dependency {
    fn clone(&self) -> (r: Self)
        ensures
            r == *self,
    {
        Dependency {
            project_id: self.project_id.clone(),
            dependency_type: match &self.dependency_type {
                Some(t) => Some(t.clone()),
                None => None,
            },
        }
    }
}

/// One published version of a project, with its files and dependency edges.
#[derive(Debug, PartialEq, Eq)]
pub struct Version {
    pub id: VersionId,
    pub project_id: ProjectId,
    pub name: String,
    pub files: Vec<VersionFile>,
    pub dependencies: Vec<Dependency>,
}

/// Parameters of a per-project version-listing query: which project, and
/// which game version and loader the results must be compatible with.
#[derive(Debug, PartialEq, Eq)]
pub struct ProjectVersionsData {
    pub id_or_slug: ProjectId,
    pub game_versions: Vec<String>,
    pub loaders: Vec<String>,
}

impl ProjectVersionsData {
    pub fn new(id_or_slug: ProjectId, game_versions: Vec<String>, loaders: Vec<String>) -> (d:
        Self)
        ensures
            d.id_or_slug == id_or_slug,
            d.game_versions == game_versions,
            d.loaders == loaders,
    {
        ProjectVersionsData { id_or_slug, game_versions, loaders }
    }
}

} // verus!

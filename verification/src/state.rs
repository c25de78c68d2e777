//! The launcher manifest: the list of published game versions, fetched once
//! during startup and passed to every component that needs it, and lookup
//! of a version's own manifest location by identifier.

use vstd::prelude::*;

verus! {

/// One published game version as the launcher manifest lists it.
#[derive(Debug, PartialEq, Eq)]
pub struct LauncherManifestVersion {
    pub id: String,
    pub url: String,
    pub version_type: String,
}

impl Clone for LauncherManifestVersion {
    fn clone(&self) -> (r: Self)
        ensures
            r == *self,
    {
        LauncherManifestVersion {
            id: self.id.clone(),
            url: self.url.clone(),
            version_type: self.version_type.clone(),
        }
    }
}

/// The launcher manifest: every published version.
#[derive(Debug)]
pub struct LauncherManifest {
    pub versions: Vec<LauncherManifestVersion>,
}

/// The manifest held for the whole run.
#[derive(Debug)]
pub struct ManifestState {
    pub launcher: LauncherManifest,
}

impl ManifestState {
    /// Look a version up by identifier: the first entry bearing it, or
    /// nothing exactly when no entry does.
    pub fn find_version(&self, version: &str) -> (r: Option<&LauncherManifestVersion>)
        ensures
            match r {
                Some(v) => exists|i: int|
                    {
                        &&& 0 <= i < self.launcher.versions@.len()
                        &&& *v == #[trigger] self.launcher.versions@[i]
                        &&& v.id@ == version@
                        &&& forall|j: int|
                            0 <= j < i ==> (#[trigger] self.launcher.versions@[j]).id@
                                != version@
                    },
                None => forall|i: int|
                    0 <= i < self.launcher.versions@.len()
                        ==> (#[trigger] self.launcher.versions@[i]).id@ != version@,
            },
    {
        let version_string = String::from_str(version);
        let mut i: usize = 0;
        while i < self.launcher.versions.len()
            invariant
                version_string@ == version@,
                0 <= i <= self.launcher.versions@.len(),
                forall|j: int|
                    0 <= j < i ==> (#[trigger] self.launcher.versions@[j]).id@ != version@,
            decreases self.launcher.versions@.len() - i,
        {
            if self.launcher.versions[i].id == version_string {
                return Some(&self.launcher.versions[i]);
            }
            i = i + 1;
        }
        None
    }
}

} // verus!

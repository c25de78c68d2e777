//! Version profiles: the records the profile table shows, identifier
//! allocation for new profiles, and the selection state of the
//! profile-creation menu.

use vstd::prelude::*;
use crate::state::LauncherManifestVersion;

verus! {

/// Which loader a profile launches with.
#[derive(Debug, Clone, PartialEq, Eq)]
pub enum Loader {
    Vanilla,
    Fabric,
}

/// Which kind of game version a filter shows.
#[derive(Debug, Clone, PartialEq, Eq)]
pub enum VersionType {
    Release,
    Snapshot,
}

impl VersionType {
    /// The `version_type` string the launcher manifest uses for this kind.
    pub open spec fn spec_str(&self) -> Seq<char> {
        match self {
            VersionType::Release => "release"@,
            VersionType::Snapshot => "snapshot"@,
        }
    }

    pub fn as_str(&self) -> (r: &str)
        ensures
            r@ == self.spec_str(),
    {
        match self {
            VersionType::Release => "release",
            VersionType::Snapshot => "snapshot",
        }
    }
}

/// Whether a profile's files are present locally. A profile created from
/// the menu starts out not downloaded, remembering what to fetch.
#[derive(Debug, Clone, PartialEq, Eq)]
pub enum ProfileState {
    Downloaded,
    NotDownloaded { version: String, loader: Loader, version_type: VersionType },
}

/// One profile: a game version under a user-chosen name.
#[derive(Debug, Clone, PartialEq, Eq)]
pub struct VersionProfile {
    pub id: i32,
    pub name: String,
    pub state: ProfileState,
}

/// The largest identifier among the profiles of a non-empty sequence.
pub open spec fn spec_max_id(profiles: Seq<VersionProfile>) -> int
    decreases profiles.len(),
{
    if profiles.len() <= 1 {
        profiles[0].id as int
    } else if profiles.last().id as int > spec_max_id(profiles.drop_last()) {
        profiles.last().id as int
    } else {
        spec_max_id(profiles.drop_last())
    }
}

/// The profiles known to the launcher, persisted between runs.
#[derive(Debug)]
pub struct ProfilesState {
    pub profiles: Vec<VersionProfile>,
}

impl ProfilesState {
    pub fn default_const() -> (s: Self)
        ensures
            s.profiles@ == Seq::<VersionProfile>::empty(),
    {
        ProfilesState { profiles: Vec::new() }
    }

    pub fn add_profile(&mut self, profile: VersionProfile)
        ensures
            final(self).profiles@ == old(self).profiles@.push(profile),
    {
        self.profiles.push(profile);
    }

    /// Create an identifier for the next profile: one more than the largest
    /// identifier in use, or zero when there is none.
    pub fn create_id(&self) -> (id: i32)
        requires
            self.profiles@.len() > 0 ==> spec_max_id(self.profiles@) < i32::MAX,
        ensures
            self.profiles@.len() == 0 ==> id == 0,
            self.profiles@.len() > 0 ==> id == spec_max_id(self.profiles@) + 1,
            forall|i: int|
                0 <= i < self.profiles@.len() ==> id > (#[trigger] self.profiles@[i]).id,
    {
        proof {
            lemma_max_id_bounds(self.profiles@);
        }
        if self.profiles.len() == 0 {
            return 0;
        }
        let mut max: i32 = self.profiles[0].id;
        let mut i: usize = 1;
        while i < self.profiles.len()
            invariant
                1 <= i <= self.profiles@.len(),
                self.profiles@.len() > 0,
                max == spec_max_id(self.profiles@.take(i as int)),
            decreases self.profiles@.len() - i,
        {
            proof {
                assert(self.profiles@.take(i + 1 as int).drop_last() =~= self.profiles@.take(
                    i as int,
                ));
            }
            if self.profiles[i].id > max {
                max = self.profiles[i].id;
            }
            i = i + 1;
        }
        proof {
            assert(self.profiles@.take(i as int) =~= self.profiles@);
        }
        max + 1
    }
}

impl Default for ProfilesState {
    fn default() -> (s: Self)
        ensures
            s.profiles@ == Seq::<VersionProfile>::empty(),
    {
        ProfilesState::default_const()
    }
}

/// Every identifier of a non-empty profile sequence is at most the maximum.
proof fn lemma_max_id_bounds(profiles: Seq<VersionProfile>)
    ensures
        forall|i: int|
            0 <= i < profiles.len() ==> (#[trigger] profiles[i]).id <= spec_max_id(profiles),
    decreases profiles.len(),
{
    if profiles.len() > 1 {
        lemma_max_id_bounds(profiles.drop_last());
        assert forall|i: int| 0 <= i < profiles.len() implies (#[trigger] profiles[i]).id
            <= spec_max_id(profiles) by {
            if i < profiles.len() - 1 {
                assert(profiles.drop_last()[i] == profiles[i]);
            }
        }
    }
}

/// The selection state of the profile-creation menu.
#[derive(Debug, Clone)]
pub struct AddProfileMenuState {
    pub selected_version_type: VersionType,
    pub profile_name_buf: String,
    pub selected_version_buf: Option<LauncherManifestVersion>,
    pub loader_buf: Loader,
}

impl AddProfileMenuState {
    /// The menu as it first opens: release filter, empty name, no version
    /// picked, vanilla loader.
    pub fn default_const() -> (s: Self)
        ensures
            s.selected_version_type is Release,
            s.profile_name_buf@ == Seq::<char>::empty(),
            s.selected_version_buf is None,
            s.loader_buf is Vanilla,
    {
        AddProfileMenuState {
            selected_version_type: VersionType::Release,
            profile_name_buf: String::new(),
            selected_version_buf: None,
            loader_buf: Loader::Vanilla,
        }
    }
}

impl Default for AddProfileMenuState {
    fn default() -> (s: Self)
        ensures
            s.selected_version_type is Release,
            s.profile_name_buf@ == Seq::<char>::empty(),
            s.selected_version_buf is None,
            s.loader_buf is Vanilla,
    {
        AddProfileMenuState::default_const()
    }
}

/// The manifest versions of a prefix whose kind matches the filter, in
/// manifest order.
pub open spec fn spec_versions_of_type(
    versions: Seq<LauncherManifestVersion>,
    kind: Seq<char>,
    n: int,
) -> Seq<LauncherManifestVersion>
    decreases n,
{
    if n <= 0 {
        Seq::empty()
    } else {
        let rest = spec_versions_of_type(versions, kind, n - 1);
        if versions[n - 1].version_type@ == kind {
            rest.push(versions[n - 1])
        } else {
            rest
        }
    }
}

/// The versions the menu's filter shows: exactly those whose kind matches
/// the selected filter, in manifest order.
pub fn filter_versions_by_type<'a>(
    versions: &'a Vec<LauncherManifestVersion>,
    kind: &VersionType,
) -> (r: Vec<&'a LauncherManifestVersion>)
    ensures
        r@.map_values(|v: &LauncherManifestVersion| *v) == spec_versions_of_type(
            versions@,
            kind.spec_str(),
            versions@.len() as int,
        ),
{
    let want = String::from_str(kind.as_str());
    let mut r: Vec<&LauncherManifestVersion> = Vec::new();
    let mut i: usize = 0;
    while i < versions.len()
        invariant
            want@ == kind.spec_str(),
            0 <= i <= versions@.len(),
            r@.map_values(|v: &LauncherManifestVersion| *v) == spec_versions_of_type(
                versions@,
                kind.spec_str(),
                i as int,
            ),
        decreases versions@.len() - i,
    {
        if versions[i].version_type == want {
            let ghost prev = r@;
            r.push(&versions[i]);
            proof {
                assert(r@.map_values(|v: &LauncherManifestVersion| *v) =~= prev.map_values(
                    |v: &LauncherManifestVersion| *v,
                ).push(versions@[i as int]));
            }
        }
        i = i + 1;
    }
    r
}

} // verus!

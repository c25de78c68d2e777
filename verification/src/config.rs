//! The user configuration record: a username and its profiles, with
//! identifier allocation and lookup. Reading and writing the configuration
//! file is the driver's work; resolving what was read against a requested
//! username happens here.

use vstd::prelude::*;

verus! {

/// One stored profile of the configuration.
#[derive(Debug, PartialEq)]
pub struct Profile {
    id: i32,
    pub version: String,
    pub version_type: String,
    pub path: String,
}

/// The largest identifier among the profiles of a non-empty sequence.
pub open spec fn spec_max_profile_id(profiles: Seq<Profile>) -> int
    decreases profiles.len(),
{
    if profiles.len() <= 1 {
        profiles[0].spec_id() as int
    } else if profiles.last().spec_id() as int > spec_max_profile_id(profiles.drop_last()) {
        profiles.last().spec_id() as int
    } else {
        spec_max_profile_id(profiles.drop_last())
    }
}

proof fn lemma_max_profile_id_bounds(profiles: Seq<Profile>)
    ensures
        forall|i: int|
            0 <= i < profiles.len() ==> (#[trigger] profiles[i]).spec_id()
                <= spec_max_profile_id(profiles),
    decreases profiles.len(),
{
    if profiles.len() > 1 {
        lemma_max_profile_id_bounds(profiles.drop_last());
        assert forall|i: int| 0 <= i < profiles.len() implies (#[trigger] profiles[i]).spec_id()
            <= spec_max_profile_id(profiles) by {
            if i < profiles.len() - 1 {
                assert(profiles.drop_last()[i] == profiles[i]);
            }
        }
    }
}

impl Profile {
    pub closed spec fn spec_id(&self) -> i32 {
        self.id
    }

    pub closed spec fn spec_version(&self) -> Seq<char> {
        self.version@
    }

    pub closed spec fn spec_version_type(&self) -> Seq<char> {
        self.version_type@
    }

    pub closed spec fn spec_path(&self) -> Seq<char> {
        self.path@
    }

    pub fn id(&self) -> (r: i32)
        ensures
            r == self.spec_id(),
    {
        self.id
    }

    /// Rebuild a stored profile, identifier included, as read back from the
    /// configuration file.
    pub fn from_parts(id: i32, version: String, version_type: String, path: String) -> (p: Self)
        ensures
            p.spec_id() == id,
            p.spec_version() == version@,
            p.spec_version_type() == version_type@,
            p.spec_path() == path@,
    {
        Profile { id, version, version_type, path }
    }

    /// A new profile whose identifier follows the largest one in use.
    pub fn new(version: String, version_type: String, path: String, profiles: &Vec<Profile>) -> (p:
        Self)
        requires
            profiles@.len() > 0 ==> spec_max_profile_id(profiles@) < i32::MAX,
        ensures
            p.spec_version() == version@,
            p.spec_version_type() == version_type@,
            p.spec_path() == path@,
            profiles@.len() == 0 ==> p.spec_id() == 0,
            profiles@.len() > 0 ==> p.spec_id() == spec_max_profile_id(profiles@) + 1,
    {
        Profile { id: Self::create_id(profiles), version, version_type, path }
    }

    /// The identifier for the next profile: one past the largest in use, or
    /// zero when there is none.
    pub fn create_id(profiles: &Vec<Profile>) -> (id: i32)
        requires
            profiles@.len() > 0 ==> spec_max_profile_id(profiles@) < i32::MAX,
        ensures
            profiles@.len() == 0 ==> id == 0,
            profiles@.len() > 0 ==> id == spec_max_profile_id(profiles@) + 1,
            forall|i: int| 0 <= i < profiles@.len() ==> id > (#[trigger] profiles@[i]).spec_id(),
    {
        proof {
            lemma_max_profile_id_bounds(profiles@);
        }
        if profiles.len() == 0 {
            return 0;
        }
        let mut max: i32 = profiles[0].id;
        let mut i: usize = 1;
        while i < profiles.len()
            invariant
                1 <= i <= profiles@.len(),
                profiles@.len() > 0,
                max == spec_max_profile_id(profiles@.take(i as int)),
            decreases profiles@.len() - i,
        {
            proof {
                assert(profiles@.take(i + 1 as int).drop_last() =~= profiles@.take(i as int));
            }
            if profiles[i].id > max {
                max = profiles[i].id;
            }
            i = i + 1;
        }
        proof {
            assert(profiles@.take(i as int) =~= profiles@);
        }
        max + 1
    }
}

/// The persisted configuration: the username and every stored profile.
#[derive(Debug, PartialEq)]
pub struct Config {
    pub username: String,
    pub profiles: Vec<Profile>,
}

impl Config {
    pub fn new(username: String) -> (c: Self)
        ensures
            c.username == username,
            c.profiles@ == Seq::<Profile>::empty(),
    {
        Config { username, profiles: Vec::new() }
    }

    /// Resolve what was read from disk against a requested username: a read
    /// configuration keeps its profiles and takes the requested username if
    /// one was given; with nothing read, a fresh configuration is made for
    /// the requested username, which must then be present.
    pub fn resolve(read: Option<Config>, username: Option<String>) -> (c: Self)
        requires
            read is None ==> username is Some,
        ensures
            match read {
                Some(r) => c.profiles == r.profiles && match username {
                    Some(u) => c.username == u,
                    None => c.username == r.username,
                },
                None => c.profiles@ == Seq::<Profile>::empty() && c.username
                    == username.unwrap(),
            },
    {
        match read {
            Some(mut r) => {
                match username {
                    Some(u) => {
                        r.username = u;
                        r
                    },
                    None => r,
                }
            },
            None => Config::new(username.unwrap()),
        }
    }

    pub fn add_profile(&mut self, profile: Profile)
        ensures
            final(self).profiles@ == old(self).profiles@.push(profile),
            final(self).username == old(self).username,
    {
        self.profiles.push(profile);
    }

    /// Look a profile up by identifier: the first profile bearing it, or
    /// nothing exactly when none does.
    pub fn get_profile(&self, id: i32) -> (r: Option<&Profile>)
        ensures
            match r {
                Some(p) => exists|i: int|
                    {
                        &&& 0 <= i < self.profiles@.len()
                        &&& *p == #[trigger] self.profiles@[i]
                        &&& p.spec_id() == id
                        &&& forall|j: int|
                            0 <= j < i ==> (#[trigger] self.profiles@[j]).spec_id() != id
                    },
                None => forall|i: int|
                    0 <= i < self.profiles@.len() ==> (#[trigger] self.profiles@[i]).spec_id()
                        != id,
            },
    {
        let mut i: usize = 0;
        while i < self.profiles.len()
            invariant
                0 <= i <= self.profiles@.len(),
                forall|j: int|
                    0 <= j < i ==> (#[trigger] self.profiles@[j]).spec_id() != id,
            decreases self.profiles@.len() - i,
        {
            if self.profiles[i].id == id {
                return Some(&self.profiles[i]);
            }
            i = i + 1;
        }
        None
    }
}

} // verus!

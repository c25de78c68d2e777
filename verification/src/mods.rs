//! Mod installation logic: the integrity/skip policy applied when planning a
//! mod's file downloads, the dependency-plan entries built from catalog
//! answers, the installed-mod records, and the marker of which profile's
//! mods are currently linked into the game directory.
//!
//! The unverified driver reads local files and computes their digests
//! (`crate::hash::calculate_sha1`), queries the catalog, and performs the
//! transfers; every decision about what to skip, what to submit and what to
//! record is made here.

use vstd::prelude::*;
use crate::batch::DownloadSet;
use crate::modrinth::{Dependency, ProjectId, Version, VersionFile, VersionId};
use crate::progress::{ProgressEvent, ProgressLog};
use crate::task::{spec_desc_of, FileDownloader};

verus! {

/// Stored record of one installed mod file.
#[derive(Debug, PartialEq, Eq)]
pub struct ModFile {
    pub sha1: String,
    pub url: String,
    pub filename: String,
}

impl Clone for ModFile {
    fn clone(&self) -> (r: Self)
        ensures
            r == *self,
    {
        ModFile {
            sha1: self.sha1.clone(),
            url: self.url.clone(),
            filename: self.filename.clone(),
        }
    }
}

/// Stored record of one installed mod: its identity, the files that were
/// enqueued for download, and its resolved dependency edges. The record is
/// produced regardless of whether some transfers later fail — failures are
/// visible through the progress sink, not by omission from the record.
#[derive(Debug, PartialEq, Eq)]
pub struct Mod {
    pub project_id: ProjectId,
    pub name: String,
    pub version_id: VersionId,
    pub is_installed: bool,
    pub files: Vec<ModFile>,
    pub dependencies: Vec<Dependency>,
}

/// The set of mods recorded for one profile.
#[derive(Debug, PartialEq, Eq)]
pub struct ModsConfig {
    pub mods: Vec<Mod>,
}

impl Default for ModsConfig {
    fn default() -> (r: Self)
        ensures
            r.mods@ == Seq::<Mod>::empty(),
    {
        ModsConfig { mods: Vec::new() }
    }
}

/// A resolved dependency-plan entry: the dependency's display name, the
/// catalog versions compatible with the requested game version and loader,
/// and whether the edge is required.
#[derive(Debug)]
pub struct SimpleDependency {
    pub name: String,
    pub versions: Vec<Version>,
    pub is_required: bool,
}

/// An edge is required exactly when the catalog marks it `"required"` or
/// omits the type entirely — absence is deliberately treated as required.
pub open spec fn spec_is_required(dep: &Dependency) -> bool {
    match dep.dependency_type {
        Some(t) => t@ == "required"@,
        None => true,
    }
}

/// The display name a plan entry falls back to when the catalog returns no
/// versions: a placeholder embedding the raw project identifier.
pub open spec fn spec_dependency_placeholder(project_id: Seq<char>) -> Seq<char> {
    "Dependency. "@ + project_id
}

/// Build the dependency-plan entry for one declared edge from the catalog's
/// answer for that edge. The entry's name is the first matching version's
/// name, or the placeholder naming the raw project identifier when the
/// catalog returned no matches; `is_required` comes from the edge metadata
/// alone, so it is computed even when no versions matched.
pub fn dependency_entry(dep: &Dependency, versions: Vec<Version>) -> (entry: SimpleDependency)
    ensures
        entry.versions == versions,
        entry.is_required == spec_is_required(dep),
        versions@.len() > 0 ==> entry.name@ == versions@[0].name@,
        versions@.len() == 0 ==> entry.name@ == spec_dependency_placeholder(dep.project_id.0@),
{
    let name = if versions.len() > 0 {
        versions[0].name.clone()
    } else {
        let mut n = String::from_str("Dependency. ");
        n.append(dep.project_id.0.as_str());
        n
    };
    let required = String::from_str("required");
    let is_required = match &dep.dependency_type {
        Some(t) => *t == required,
        None => true,
    };
    SimpleDependency { name, versions, is_required }
}

/// Append the plan entry for one edge to the plan being built, as the
/// resolver does edge by edge. Any catalog failure aborts the whole
/// resolution before this point, so a partial plan is never extended.
pub fn push_dependency(dist: &mut Vec<SimpleDependency>, dep: &Dependency, versions: Vec<
    Version,
>)
    ensures
        final(dist)@.len() == old(dist)@.len() + 1,
        final(dist)@.subrange(0, old(dist)@.len() as int) == old(dist)@,
        final(dist)@.last().versions == versions,
        final(dist)@.last().is_required == spec_is_required(dep),
        versions@.len() > 0 ==> final(dist)@.last().name@ == versions@[0].name@,
        versions@.len() == 0 ==> final(dist)@.last().name@ == spec_dependency_placeholder(
            dep.project_id.0@,
        ),
{
    let entry = dependency_entry(dep, versions);
    dist.push(entry);
    proof {
        assert(dist@.subrange(0, old(dist)@.len() as int) =~= old(dist)@);
    }
}

/// Every catalog query of the batch succeeded.
pub open spec fn spec_all_answered(answers: Seq<Result<Vec<Version>, String>>) -> bool {
    forall|i: int| 0 <= i < answers.len() ==> (#[trigger] answers[i]) is Ok
}

/// The first failed query of the batch stands at position `k`.
pub open spec fn spec_first_failure(answers: Seq<Result<Vec<Version>, String>>, k: int) -> bool {
    &&& 0 <= k < answers.len()
    &&& answers[k] is Err
    &&& forall|j: int| 0 <= j < k ==> (#[trigger] answers[j]) is Ok
}

/// The plan holds one entry per declared edge, built from that edge's
/// catalog answer exactly as `dependency_entry` builds it.
pub open spec fn spec_plan_matches(
    plan: Seq<SimpleDependency>,
    deps: Seq<Dependency>,
    answers: Seq<Result<Vec<Version>, String>>,
) -> bool {
    &&& plan.len() == deps.len()
    &&& forall|i: int|
        0 <= i < plan.len() ==> {
            let entry = #[trigger] plan[i];
            let vs = answers[i]->Ok_0;
            &&& entry.versions == vs
            &&& entry.is_required == spec_is_required(&deps[i])
            &&& (vs@.len() > 0 ==> entry.name@ == vs@[0].name@)
            &&& (vs@.len() == 0 ==> entry.name@ == spec_dependency_placeholder(
                deps[i].project_id.0@,
            ))
        }
}

/// Assemble the whole dependency plan for one mod from the catalog's
/// answers, one per declared edge, in edge order. Any failed query aborts
/// the whole resolution — an incomplete dependency list is unsafe to
/// present as complete, so no partial plan is ever produced — and the first
/// failing edge's error is surfaced. When every query succeeded, the plan
/// holds exactly one entry per edge, as `dependency_entry` builds it.
pub fn resolve_plan(deps: &Vec<Dependency>, answers: Vec<Result<Vec<Version>, String>>) -> (r:
    Result<Vec<SimpleDependency>, String>)
    requires
        answers@.len() == deps@.len(),
    ensures
        r is Ok <==> spec_all_answered(answers@),
        r is Ok ==> spec_plan_matches(r->Ok_0@, deps@, answers@),
        r is Err ==> exists|k: int|
            #[trigger] spec_first_failure(answers@, k) && r->Err_0 == answers@[k]->Err_0,
{
    let ghost all = answers@;
    let mut answers = answers;
    let answer_count = answers.len();
    assert(all.len() == answer_count);
    let mut plan: Vec<SimpleDependency> = Vec::new();
    let mut i: usize = 0;
    #[verifier::loop_isolation(false)]
    while answers.len() > 0
        invariant
            all.len() == deps@.len(),
            all.len() <= usize::MAX,
            i + answers@.len() == all.len(),
            answers@ == all.skip(i as int),
            plan@.len() == i,
            forall|j: int| 0 <= j < i ==> (#[trigger] all[j]) is Ok,
            forall|j: int|
                0 <= j < i ==> {
                    let entry = #[trigger] plan@[j];
                    let vs = all[j]->Ok_0;
                    &&& entry.versions == vs
                    &&& entry.is_required == spec_is_required(&deps@[j])
                    &&& (vs@.len() > 0 ==> entry.name@ == vs@[0].name@)
                    &&& (vs@.len() == 0 ==> entry.name@ == spec_dependency_placeholder(
                        deps@[j].project_id.0@,
                    ))
                },
        decreases answers@.len(),
    {
        let answer = answers.remove(0);
        assert(answer == all[i as int]);
        proof {
            assert(all.skip(i as int).remove(0) =~= all.skip(i + 1 as int));
        }
        match answer {
            Ok(versions) => {
                let entry = dependency_entry(&deps[i], versions);
                plan.push(entry);
            },
            Err(e) => {
                proof {
                    assert(spec_first_failure(all, i as int));
                    assert(!spec_all_answered(all));
                }
                return Err(e);
            },
        }
        i = i + 1;
    }
    proof {
        assert(spec_all_answered(all));
        assert(spec_plan_matches(plan@, deps@, all));
    }
    Ok(plan)
}

/// Whether a local digest satisfies the hash the catalog records for a file.
pub open spec fn spec_matches(f: VersionFile, local: Option<String>) -> bool {
    match local {
        Some(d) => d@ == f.hashes.sha1@,
        None => false,
    }
}

/// A file the skip policy satisfies without a transfer: a primary file whose
/// local digest already matches.
pub open spec fn spec_skipped(f: VersionFile, local: Option<String>) -> bool {
    f.primary && spec_matches(f, local)
}

/// A file that must be submitted for transfer: a primary file whose local
/// digest is absent or mismatched.
pub open spec fn spec_submitted(f: VersionFile, local: Option<String>) -> bool {
    f.primary && !spec_matches(f, local)
}

/// Destination path of a file placed in a directory.
pub open spec fn spec_dest(dir: Seq<char>, filename: Seq<char>) -> Seq<char> {
    dir + seq!['/'] + filename
}

/// Description of one submitted task over the first `n` files: source URL,
/// destination path, and the expected hash carried for post-download
/// verification.
pub open spec fn spec_task_descs(
    files: Seq<VersionFile>,
    local: Seq<Option<String>>,
    dir: Seq<char>,
    n: int,
) -> Seq<(Seq<char>, Seq<char>, Seq<char>)>
    decreases n,
{
    if n <= 0 {
        Seq::empty()
    } else {
        let rest = spec_task_descs(files, local, dir, n - 1);
        if spec_submitted(files[n - 1], local[n - 1]) {
            rest.push(
                (files[n - 1].url@, spec_dest(dir, files[n - 1].filename@), files[n
                    - 1].hashes.sha1@),
            )
        } else {
            rest
        }
    }
}

/// The installed-file records over the first `n` files: one per submitted
/// file, none for skipped or non-primary files.
pub open spec fn spec_mod_records(
    files: Seq<VersionFile>,
    local: Seq<Option<String>>,
    n: int,
) -> Seq<ModFile>
    decreases n,
{
    if n <= 0 {
        Seq::empty()
    } else {
        let rest = spec_mod_records(files, local, n - 1);
        if spec_submitted(files[n - 1], local[n - 1]) {
            rest.push(
                ModFile {
                    sha1: files[n - 1].hashes.sha1,
                    url: files[n - 1].url,
                    filename: files[n - 1].filename,
                },
            )
        } else {
            rest
        }
    }
}

/// How many of the first `n` files the skip policy satisfies locally.
pub open spec fn spec_skip_count(
    files: Seq<VersionFile>,
    local: Seq<Option<String>>,
    n: int,
) -> nat
    decreases n,
{
    if n <= 0 {
        0
    } else {
        spec_skip_count(files, local, n - 1) + if spec_skipped(files[n - 1], local[n - 1]) {
            1nat
        } else {
            0nat
        }
    }
}

/// How many of the first `n` files are primary.
pub open spec fn spec_primary_count(files: Seq<VersionFile>, n: int) -> nat
    decreases n,
{
    if n <= 0 {
        0
    } else {
        spec_primary_count(files, n - 1) + if files[n - 1].primary {
            1nat
        } else {
            0nat
        }
    }
}

/// The opaque unit events emitted for `n` skipped files.
pub open spec fn unit_events(n: nat) -> Seq<ProgressEvent> {
    Seq::new(n, |i: int| ProgressEvent::Unit)
}

proof fn lemma_plan_counts(files: Seq<VersionFile>, local: Seq<Option<String>>, dir: Seq<char>, n: int)
    requires
        0 <= n <= files.len(),
        local.len() == files.len(),
    ensures
        spec_task_descs(files, local, dir, n).len() + spec_skip_count(files, local, n)
            == spec_primary_count(files, n),
        spec_mod_records(files, local, n).len() == spec_task_descs(files, local, dir, n).len(),
    decreases n,
{
    if n > 0 {
        lemma_plan_counts(files, local, dir, n - 1);
    }
}

/// Apply the integrity/skip policy to one mod version's files, at
/// plan-construction time: every primary file whose local digest matches the
/// recorded hash is excluded from the constructed download set and exactly
/// one progress unit is emitted for it; every other primary file becomes a
/// download task (carrying the expected hash) and an installed-file record;
/// non-primary files are never downloaded and get neither.
///
/// `local` holds, for each file, the digest of the existing local file at
/// its destination, or `None` when there is none to read.
pub fn plan_mod_files(
    files: &Vec<VersionFile>,
    dir: &String,
    local: &Vec<Option<String>>,
    sink: &mut ProgressLog,
) -> (plan: (DownloadSet, Vec<ModFile>))
    requires
        local@.len() == files@.len(),
    ensures
        plan.0.spec_tasks().map_values(|t: FileDownloader| spec_desc_of(t)) == spec_task_descs(
            files@,
            local@,
            dir@,
            files@.len() as int,
        ),
        plan.1@ == spec_mod_records(files@, local@, files@.len() as int),
        plan.0.spec_total() + spec_skip_count(files@, local@, files@.len() as int)
            == spec_primary_count(files@, files@.len() as int),
        final(sink).spec_events() == old(sink).spec_events() + unit_events(
            spec_skip_count(files@, local@, files@.len() as int),
        ),
        final(sink).spec_events().len() == old(sink).spec_events().len() + spec_skip_count(
            files@,
            local@,
            files@.len() as int,
        ),
        final(sink).spec_total() == old(sink).spec_total(),
{
    let mut set = DownloadSet::new();
    let mut records: Vec<ModFile> = Vec::new();
    let mut i: usize = 0;
    proof {
        reveal_strlit("/");
    }
    while i < files.len()
        invariant
            0 <= i <= files@.len(),
            local@.len() == files@.len(),
            "/"@ == seq!['/'],
            set.spec_tasks().map_values(|t: FileDownloader| spec_desc_of(t)) == spec_task_descs(
                files@,
                local@,
                dir@,
                i as int,
            ),
            set.spec_total() == spec_task_descs(files@, local@, dir@, i as int).len(),
            records@ == spec_mod_records(files@, local@, i as int),
            sink.spec_events() == old(sink).spec_events() + unit_events(
                spec_skip_count(files@, local@, i as int),
            ),
            sink.spec_total() == old(sink).spec_total(),
        decreases files@.len() - i,
    {
        let f = &files[i];
        if f.primary {
            let matched = match &local[i] {
                Some(d) => *d == f.hashes.sha1,
                None => false,
            };
            if matched {
                sink.send(ProgressEvent::Unit);
                proof {
                    assert(unit_events(spec_skip_count(files@, local@, i as int)).push(
                        ProgressEvent::Unit,
                    ) =~= unit_events(spec_skip_count(files@, local@, i + 1 as int)));
                }
            } else {
                let mut path = dir.clone();
                path.append("/");
                path.append(f.filename.as_str());
                let task = FileDownloader::new(f.url.clone(), path).with_sha1(
                    f.hashes.sha1.clone(),
                );
                let ghost old_tasks = set.spec_tasks();
                set.add(task);
                records.push(
                    ModFile {
                        sha1: f.hashes.sha1.clone(),
                        url: f.url.clone(),
                        filename: f.filename.clone(),
                    },
                );
                proof {
                    assert(set.spec_tasks().map_values(|t: FileDownloader| spec_desc_of(t))
                        =~= old_tasks.map_values(|t: FileDownloader| spec_desc_of(t)).push(
                        spec_desc_of(task),
                    ));
                }
            }
        }
        i = i + 1;
    }
    proof {
        lemma_plan_counts(files@, local@, dir@, files@.len() as int);
    }
    (set, records)
}

/// Build the installed-mod record for one version: the files that were
/// enqueued, the version's identity and its dependency edges — produced
/// whether or not some transfers later fail.
pub fn mod_record(version: &Version, files: Vec<ModFile>) -> (m: Mod)
    ensures
        m.project_id == version.project_id,
        m.name@ == version.name@,
        m.version_id == version.id,
        m.is_installed,
        m.files == files,
        m.dependencies@ == version.dependencies@,
{
    let dependencies = version.dependencies.clone();
    proof {
        assert forall|i: int| 0 <= i < version.dependencies@.len() implies dependencies@[i]
            == version.dependencies@[i] by {
            assert(cloned::<Dependency>(version.dependencies@[i], dependencies@[i]));
        }
        assert(dependencies@ =~= version.dependencies@);
    }
    Mod {
        project_id: version.project_id.clone(),
        name: version.name.clone(),
        version_id: version.id.clone(),
        is_installed: true,
        files,
        dependencies,
    }
}

/// The total unit count for a batch of mod versions: the number of primary
/// files across all versions — non-primary files are never downloaded, and
/// the denominator is fixed before any work begins.
pub open spec fn spec_total_primary(versions: Seq<Version>, n: int) -> nat
    decreases n,
{
    if n <= 0 {
        0
    } else {
        spec_total_primary(versions, n - 1) + spec_primary_count(
            versions[n - 1].files@,
            versions[n - 1].files@.len() as int,
        )
    }
}

proof fn lemma_total_primary_prefix(versions: Seq<Version>, n: int)
    requires
        0 <= n <= versions.len(),
    ensures
        spec_total_primary(versions, n) <= spec_total_primary(
            versions,
            versions.len() as int,
        ),
    decreases versions.len() - n,
{
    if n < versions.len() {
        lemma_total_primary_prefix(versions, n + 1);
    }
}

/// Count the primary files of one version's file list.
pub fn primary_count(files: &Vec<VersionFile>) -> (n: usize)
    ensures
        n == spec_primary_count(files@, files@.len() as int),
{
    let mut n: usize = 0;
    let mut i: usize = 0;
    while i < files.len()
        invariant
            0 <= i <= files@.len(),
            n == spec_primary_count(files@, i as int),
            n <= i,
        decreases files@.len() - i,
    {
        if files[i].primary {
            n = n + 1;
        }
        i = i + 1;
    }
    n
}

/// The progress denominator for a batch of mod versions: the count of
/// primary files across all of them.
pub fn count_primary_files(versions: &Vec<Version>) -> (n: u32)
    requires
        spec_total_primary(versions@, versions@.len() as int) <= u32::MAX,
    ensures
        n == spec_total_primary(versions@, versions@.len() as int),
{
    let mut n: u32 = 0;
    let mut i: usize = 0;
    while i < versions.len()
        invariant
            0 <= i <= versions@.len(),
            spec_total_primary(versions@, versions@.len() as int) <= u32::MAX,
            n == spec_total_primary(versions@, i as int),
        decreases versions@.len() - i,
    {
        proof {
            lemma_total_primary_prefix(versions@, i + 1);
        }
        let c = primary_count(&versions[i].files);
        n = n + c as u32;
        i = i + 1;
    }
    n
}

/// Every task description the plan submits comes from some submitted file.
proof fn lemma_descs_from_submitted(
    files: Seq<VersionFile>,
    local: Seq<Option<String>>,
    dir: Seq<char>,
    n: int,
    k: int,
)
    requires
        0 <= n <= files.len(),
        local.len() == files.len(),
        0 <= k < spec_task_descs(files, local, dir, n).len(),
    ensures
        exists|j: int|
            0 <= j < n && spec_submitted(files[j], local[j]) && spec_task_descs(
                files,
                local,
                dir,
                n,
            )[k] == (files[j].url@, spec_dest(dir, files[j].filename@), files[j].hashes.sha1@),
    decreases n,
{
    if n > 0 {
        let rest = spec_task_descs(files, local, dir, n - 1);
        if spec_submitted(files[n - 1], local[n - 1]) && k == rest.len() {
            assert(spec_task_descs(files, local, dir, n)[k] == (files[n - 1].url@, spec_dest(
                dir,
                files[n - 1].filename@,
            ), files[n - 1].hashes.sha1@));
        } else {
            lemma_descs_from_submitted(files, local, dir, n - 1, k);
            let j = choose|j: int|
                0 <= j < n - 1 && spec_submitted(files[j], local[j]) && rest[k] == (
                files[j].url@,
                spec_dest(dir, files[j].filename@),
                files[j].hashes.sha1@,
                );
            assert(spec_task_descs(files, local, dir, n)[k] == rest[k]);
            assert(0 <= j < n && spec_submitted(files[j], local[j]));
        }
    }
}

/// Destinations under one directory are distinct for distinct file names.
proof fn lemma_dest_injective(dir: Seq<char>, a: Seq<char>, b: Seq<char>)
    requires
        spec_dest(dir, a) == spec_dest(dir, b),
    ensures
        a == b,
{
    assert(a =~= spec_dest(dir, a).skip(dir.len() as int + 1));
    assert(b =~= spec_dest(dir, b).skip(dir.len() as int + 1));
}

proof fn lemma_skip_count_positive(
    files: Seq<VersionFile>,
    local: Seq<Option<String>>,
    i: int,
    n: int,
)
    requires
        0 <= i < n <= files.len(),
        spec_skipped(files[i], local[i]),
    ensures
        spec_skip_count(files, local, n) >= 1,
    decreases n,
{
    if n - 1 > i {
        lemma_skip_count_positive(files, local, i, n - 1);
    }
}

/// A downloadable whose local file already hashes to the expected value
/// never appears in the submitted task set — no submitted task targets its
/// destination — while the skip still contributes its one progress unit to
/// the count the planner emits. Distinct destination paths are the caller's
/// obligation, as concurrent writes to one path are a caller error.
pub proof fn lemma_matching_hash_never_submitted(
    files: Seq<VersionFile>,
    local: Seq<Option<String>>,
    dir: Seq<char>,
    i: int,
)
    requires
        local.len() == files.len(),
        0 <= i < files.len(),
        spec_skipped(files[i], local[i]),
        forall|j: int|
            0 <= j < files.len() && j != i ==> (#[trigger] files[j].filename)@
                != files[i].filename@,
    ensures
        forall|k: int|
            0 <= k < spec_task_descs(files, local, dir, files.len() as int).len()
                ==> (#[trigger] spec_task_descs(files, local, dir, files.len() as int)[k]).1
                != spec_dest(dir, files[i].filename@),
        spec_skip_count(files, local, files.len() as int) >= 1,
{
    let n = files.len() as int;
    let descs = spec_task_descs(files, local, dir, n);
    assert forall|k: int| 0 <= k < descs.len() implies (#[trigger] descs[k]).1 != spec_dest(
        dir,
        files[i].filename@,
    ) by {
        lemma_descs_from_submitted(files, local, dir, n, k);
        let j = choose|j: int|
            0 <= j < n && spec_submitted(files[j], local[j]) && descs[k] == (
            files[j].url@,
            spec_dest(dir, files[j].filename@),
            files[j].hashes.sha1@,
            );
        assert(j != i);
        if descs[k].1 == spec_dest(dir, files[i].filename@) {
            lemma_dest_injective(dir, files[j].filename@, files[i].filename@);
        }
    }
    lemma_skip_count_positive(files, local, i, n);
}

/// Integrity skip is idempotent: after a pass whose submitted transfers all
/// completed with the expected contents, a second pass over the otherwise
/// unchanged local files finds every primary file satisfied and submits
/// nothing — the second run issues zero network requests.
pub proof fn lemma_skip_idempotent(
    files: Seq<VersionFile>,
    first: Seq<Option<String>>,
    second: Seq<Option<String>>,
    dir: Seq<char>,
)
    requires
        first.len() == files.len(),
        second.len() == files.len(),
        forall|i: int|
            0 <= i < files.len() && spec_submitted(files[i], first[i]) ==> spec_matches(
                files[i],
                #[trigger] second[i],
            ),
        forall|i: int|
            0 <= i < files.len() && !spec_submitted(files[i], first[i]) ==> #[trigger] second[i]
                == first[i],
    ensures
        spec_task_descs(files, second, dir, files.len() as int) == Seq::<(
            Seq<char>,
            Seq<char>,
            Seq<char>,
        )>::empty(),
        spec_skip_count(files, second, files.len() as int) == spec_primary_count(
            files,
            files.len() as int,
        ),
{
    assert forall|i: int| 0 <= i < files.len() implies !spec_submitted(
        files[i],
        #[trigger] second[i],
    ) by {
        if spec_submitted(files[i], first[i]) {
            assert(spec_matches(files[i], second[i]));
        }
    }
    lemma_no_submissions(files, second, dir, files.len() as int);
}

proof fn lemma_no_submissions(
    files: Seq<VersionFile>,
    local: Seq<Option<String>>,
    dir: Seq<char>,
    n: int,
)
    requires
        0 <= n <= files.len(),
        local.len() == files.len(),
        forall|i: int| 0 <= i < files.len() ==> !spec_submitted(files[i], #[trigger] local[i]),
    ensures
        spec_task_descs(files, local, dir, n) == Seq::<(Seq<char>, Seq<char>, Seq<char>)>::empty(),
        spec_skip_count(files, local, n) == spec_primary_count(files, n),
    decreases n,
{
    if n > 0 {
        lemma_no_submissions(files, local, dir, n - 1);
    }
}

/// The persisted marker of which profile's mods are currently hard-linked
/// into the active game directory. Read, compared and written back by the
/// driver on every activation request; there is no protection against a
/// concurrent external writer — a documented gap, not a lock.
#[derive(Debug, PartialEq, Eq)]
pub struct CurrentlyLoaded {
    id: usize,
}

impl CurrentlyLoaded {
    pub closed spec fn spec_id(&self) -> usize {
        self.id
    }

    pub fn new(id: usize) -> (c: Self)
        ensures
            c.spec_id() == id,
    {
        CurrentlyLoaded { id }
    }

    pub fn id(&self) -> (r: usize)
        ensures
            r == self.spec_id(),
    {
        self.id
    }

    /// Whether the marker already names the requested profile.
    pub fn matches_profile(&self, profile_id: usize) -> (r: bool)
        ensures
            r == (self.spec_id() == profile_id),
    {
        self.id == profile_id
    }

    pub fn set_id(&mut self, id: usize)
        ensures
            final(self).spec_id() == id,
    {
        self.id = id;
    }
}

/// Whether a stashed mod file still needs a hard link: one is created only
/// when no entry of the target directory already bears its name.
pub fn needs_link(file_name: &String, existing: &Vec<String>) -> (r: bool)
    ensures
        r == !(exists|i: int| 0 <= i < existing@.len() && (#[trigger] existing@[i])@ == file_name@),
{
    let mut i: usize = 0;
    while i < existing.len()
        invariant
            0 <= i <= existing@.len(),
            forall|j: int| 0 <= j < i ==> (#[trigger] existing@[j])@ != file_name@,
        decreases existing@.len() - i,
    {
        if existing[i] == *file_name {
            return false;
        }
        i = i + 1;
    }
    true
}

} // verus!

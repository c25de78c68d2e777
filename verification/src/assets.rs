//! Asset downloading: the fetched asset index, the integrity/skip decision
//! per asset, and the construction of a download queue that batches the
//! submitted assets into chunks of bounded size.
//!
//! Assets are content-addressed: an asset whose hash is `h` is fetched from
//! the public resource host under `h[0..2]/h` and stored under the objects
//! directory at the same relative path.

use vstd::prelude::*;
use crate::batch::{
    member_tasks, lemma_member_tasks_total, Chunk, DownloadQueue, DownloadSet, Downloader,
};
use crate::progress::{ProgressEvent, ProgressLog};
use crate::mods::unit_events;
use crate::task::{spec_desc_of, FileDownloader};

verus! {

/// Upper bound on the number of tasks per chunk: batching tens of thousands
/// of assets into groups of this size caps peak concurrency and gives
/// per-chunk failure visibility.
pub const ASSET_CHUNK_SIZE: usize = 100;

/// What the asset index records for one logical asset name.
#[derive(Debug, PartialEq, Eq)]
pub struct AssetInformation {
    pub hash: String,
    pub size: i64,
}

impl Clone for AssetInformation {
    fn clone(&self) -> (r: Self)
        ensures
            r == *self,
    {
        AssetInformation { hash: self.hash.clone(), size: self.size }
    }
}

/// One entry of the asset index: a logical name and its information.
#[derive(Debug, PartialEq, Eq)]
pub struct AssetEntry {
    pub name: String,
    pub info: AssetInformation,
}

impl Clone for AssetEntry {
    fn clone(&self) -> (r: Self)
        ensures
            r == *self,
    {
        AssetEntry { name: self.name.clone(), info: self.info.clone() }
    }
}

/// The entries' names are pairwise distinct. The fetched index is a JSON
/// object keyed by asset name, so the entry list that stands in for that
/// mapping carries uniqueness of names as its invariant.
pub open spec fn spec_unique_names(entries: Seq<AssetEntry>) -> bool {
    forall|i: int, j: int|
        0 <= i < j < entries.len() ==> (#[trigger] entries[i]).name@
            != (#[trigger] entries[j]).name@
}

/// The asset index fetched once per game version, immutable after fetch.
/// The driver re-serializes it verbatim to a local index file named by a
/// version-specific identifier. Its invariant is `spec_unique_names`: one
/// entry per logical asset name.
#[derive(Debug, PartialEq, Eq)]
pub struct Assets {
    pub objects: Vec<AssetEntry>,
}

impl Assets {
    /// Check the index's invariant: no two entries share a name. A driver
    /// that built the entry list from anything but a JSON object calls
    /// this before planning on it.
    pub fn has_unique_names(&self) -> (r: bool)
        ensures
            r == spec_unique_names(self.objects@),
    {
        let mut i: usize = 0;
        while i < self.objects.len()
            invariant
                0 <= i <= self.objects@.len(),
                forall|a: int, b: int|
                    0 <= a < b < self.objects@.len() && a < i
                        ==> (#[trigger] self.objects@[a]).name@
                        != (#[trigger] self.objects@[b]).name@,
            decreases self.objects@.len() - i,
        {
            let mut j: usize = i + 1;
            while j < self.objects.len()
                invariant
                    i < j <= self.objects@.len(),
                    i < self.objects@.len(),
                    forall|b: int|
                        i < b < j ==> (#[trigger] self.objects@[b]).name@
                            != self.objects@[i as int].name@,
                decreases self.objects@.len() - j,
            {
                if self.objects[i].name == self.objects[j].name {
                    return false;
                }
                j = j + 1;
            }
            i = i + 1;
        }
        true
    }
}

/// Whether a local digest satisfies an asset's recorded hash.
pub open spec fn spec_asset_matches(e: AssetEntry, local: Option<String>) -> bool {
    match local {
        Some(d) => d@ == e.info.hash@,
        None => false,
    }
}

/// Source URL of a content-addressed asset.
pub open spec fn spec_asset_url(h: Seq<char>) -> Seq<char> {
    "https://resources.download.minecraft.net/"@ + h.take(2) + seq!['/'] + h
}

/// Destination path of a content-addressed asset under the objects
/// directory.
pub open spec fn spec_asset_path(objects_dir: Seq<char>, h: Seq<char>) -> Seq<char> {
    objects_dir + seq!['/'] + h.take(2) + seq!['/'] + h
}

/// Descriptions of the tasks submitted for the first `n` asset entries:
/// one per entry whose local digest is absent or mismatched, carrying the
/// asset's hash for post-download verification.
pub open spec fn spec_asset_descs(
    entries: Seq<AssetEntry>,
    local: Seq<Option<String>>,
    objects_dir: Seq<char>,
    n: int,
) -> Seq<(Seq<char>, Seq<char>, Seq<char>)>
    decreases n,
{
    if n <= 0 {
        Seq::empty()
    } else {
        let rest = spec_asset_descs(entries, local, objects_dir, n - 1);
        if spec_asset_matches(entries[n - 1], local[n - 1]) {
            rest
        } else {
            rest.push(
                (
                    spec_asset_url(entries[n - 1].info.hash@),
                    spec_asset_path(objects_dir, entries[n - 1].info.hash@),
                    entries[n - 1].info.hash@,
                ),
            )
        }
    }
}

/// How many of the first `n` asset entries the skip policy satisfies
/// locally.
pub open spec fn spec_asset_skip_count(
    entries: Seq<AssetEntry>,
    local: Seq<Option<String>>,
    n: int,
) -> nat
    decreases n,
{
    if n <= 0 {
        0
    } else {
        spec_asset_skip_count(entries, local, n - 1) + if spec_asset_matches(
            entries[n - 1],
            local[n - 1],
        ) {
            1nat
        } else {
            0nat
        }
    }
}

proof fn lemma_asset_counts(
    entries: Seq<AssetEntry>,
    local: Seq<Option<String>>,
    objects_dir: Seq<char>,
    n: int,
)
    requires
        0 <= n <= entries.len(),
        local.len() == entries.len(),
    ensures
        spec_asset_descs(entries, local, objects_dir, n).len() + spec_asset_skip_count(
            entries,
            local,
            n,
        ) == n,
    decreases n,
{
    if n > 0 {
        lemma_asset_counts(entries, local, objects_dir, n - 1);
    }
}

/// A plan for downloading the missing assets of one version: the submitted
/// tasks batched into chunks, the count of assets satisfied locally, and
/// the fetched index kept for the driver to write back.
#[derive(Debug)]
pub struct AssetsDownloader {
    queue: DownloadQueue,
    skipped: u32,
    assets: Assets,
    indexes: String,
    id: String,
}

impl AssetsDownloader {
    pub closed spec fn spec_members(&self) -> Seq<Downloader> {
        self.queue.spec_members()
    }

    /// How many assets were satisfied locally and excluded from the queue.
    pub closed spec fn spec_skipped(&self) -> nat {
        self.skipped as nat
    }

    pub closed spec fn spec_assets(&self) -> &Assets {
        &self.assets
    }

    pub closed spec fn spec_indexes(&self) -> Seq<char> {
        self.indexes@
    }

    pub closed spec fn spec_id(&self) -> Seq<char> {
        self.id@
    }

    /// The progress denominator: every asset entry counts, whether it will
    /// be transferred or was satisfied locally.
    pub open spec fn spec_total(&self) -> nat {
        crate::batch::sum_totals(self.spec_members()) + self.spec_skipped()
    }

    /// Apply the integrity/skip policy to the fetched asset index and batch
    /// every remaining asset into chunks of at most `ASSET_CHUNK_SIZE`
    /// tasks.
    ///
    /// `local` holds, for each entry, the digest of the existing local file
    /// at the asset's destination, or `None` when there is none to read.
    /// The resulting queue submits exactly the entries whose digest is
    /// absent or mismatched, in index order; every member is a fresh chunk
    /// of between 1 and `ASSET_CHUNK_SIZE` tasks; and the skipped count
    /// plus the queue's total equals the number of entries.
    pub fn build(
        assets: Assets,
        objects_dir: &String,
        local: &Vec<Option<String>>,
        indexes: String,
        id: String,
    ) -> (d: AssetsDownloader)
        requires
            local@.len() == assets.objects@.len(),
            assets.objects@.len() <= u32::MAX,
            forall|i: int|
                0 <= i < assets.objects@.len() ==> (#[trigger] assets.objects@[i]).info.hash@.len()
                    >= 2,
        ensures
            member_tasks(d.spec_members()).map_values(|t: FileDownloader| spec_desc_of(t))
                == spec_asset_descs(
                assets.objects@,
                local@,
                objects_dir@,
                assets.objects@.len() as int,
            ),
            d.spec_skipped() == spec_asset_skip_count(
                assets.objects@,
                local@,
                assets.objects@.len() as int,
            ),
            d.spec_total() == assets.objects@.len(),
            forall|i: int|
                0 <= i < d.spec_members().len() ==> {
                    let m = #[trigger] d.spec_members()[i];
                    &&& m is Chunked
                    &&& m.spec_fresh()
                    &&& 1 <= m.spec_total() <= ASSET_CHUNK_SIZE
                },
            d.spec_assets() == &assets,
            d.spec_indexes() == indexes@,
            d.spec_id() == id@,
    {
        let ghost entries = assets.objects@;
        let n = assets.objects.len();
        let mut tasks: Vec<FileDownloader> = Vec::new();
        let mut skipped: u32 = 0;
        let mut i: usize = 0;
        proof {
            reveal_strlit("/");
        }
        while i < n
            invariant
                0 <= i <= n,
                n == entries.len(),
                n <= u32::MAX,
                entries == assets.objects@,
                local@.len() == entries.len(),
                forall|k: int|
                    0 <= k < entries.len() ==> (#[trigger] entries[k]).info.hash@.len() >= 2,
                "/"@ == seq!['/'],
                tasks@.map_values(|t: FileDownloader| spec_desc_of(t)) == spec_asset_descs(
                    entries,
                    local@,
                    objects_dir@,
                    i as int,
                ),
                skipped == spec_asset_skip_count(entries, local@, i as int),
                skipped <= i,
            decreases n - i,
        {
            let e = &assets.objects[i];
            let matched = match &local[i] {
                Some(d) => *d == e.info.hash,
                None => false,
            };
            if matched {
                skipped = skipped + 1;
            } else {
                let prefix = e.info.hash.as_str().substring_char(0, 2);
                let mut url = String::from_str("https://resources.download.minecraft.net/");
                url.append(prefix);
                url.append("/");
                url.append(e.info.hash.as_str());
                let mut path = objects_dir.clone();
                path.append("/");
                path.append(prefix);
                path.append("/");
                path.append(e.info.hash.as_str());
                assert(url@ == spec_asset_url(e.info.hash@));
                assert(path@ == spec_asset_path(objects_dir@, e.info.hash@));
                let ghost old_tasks = tasks@;
                let task = FileDownloader::new(url, path).with_sha1(e.info.hash.clone());
                tasks.push(task);
                proof {
                    assert(tasks@.map_values(|t: FileDownloader| spec_desc_of(t)) =~= old_tasks
                        .map_values(|t: FileDownloader| spec_desc_of(t)).push(spec_desc_of(task)));
                }
            }
            i = i + 1;
        }
        proof {
            lemma_asset_counts(entries, local@, objects_dir@, n as int);
        }

        let ghost all_tasks = tasks@;
        let mut queue = DownloadQueue::new();
        let mut done: usize = 0;
        while tasks.len() > 0
            invariant
                done + tasks@.len() == all_tasks.len(),
                all_tasks.len() <= u32::MAX,
                tasks@ == all_tasks.skip(done as int),
                member_tasks(queue.spec_members()) == all_tasks.take(done as int),
                forall|k: int|
                    0 <= k < queue.spec_members().len() ==> {
                        let m = #[trigger] queue.spec_members()[k];
                        &&& m is Chunked
                        &&& m.spec_fresh()
                        &&& 1 <= m.spec_total() <= ASSET_CHUNK_SIZE
                    },
            decreases tasks@.len(),
        {
            let ghost start = done;
            let mut set = DownloadSet::new();
            let mut c: usize = 0;
            while tasks.len() > 0 && c < ASSET_CHUNK_SIZE
                invariant
                    done + tasks@.len() == all_tasks.len(),
                    all_tasks.len() <= u32::MAX,
                    tasks@ == all_tasks.skip(done as int),
                    c == done - start,
                    0 <= start <= done,
                    c <= ASSET_CHUNK_SIZE,
                    set.spec_tasks() == all_tasks.subrange(start as int, done as int),
                decreases tasks@.len(),
            {
                let t = tasks.remove(0);
                assert(t == all_tasks[done as int]);
                set.add(t);
                proof {
                    assert(all_tasks.subrange(start as int, done as int).push(
                        all_tasks[done as int],
                    ) =~= all_tasks.subrange(start as int, done + 1 as int));
                    assert(all_tasks.skip(done as int).remove(0) =~= all_tasks.skip(
                        done + 1 as int,
                    ));
                }
                done = done + 1;
                c = c + 1;
            }
            let ghost old_members = queue.spec_members();
            let member = Downloader::Chunked(Chunk::new(set));
            queue.add_downloader(member);
            proof {
                assert(queue.spec_members().drop_last() =~= old_members);
                assert(member_tasks(queue.spec_members()) == member_tasks(old_members)
                    + crate::batch::member_tasks_of(member));
                assert(all_tasks.take(start as int) + all_tasks.subrange(
                    start as int,
                    done as int,
                ) =~= all_tasks.take(done as int));
            }
        }
        proof {
            assert(all_tasks.take(done as int) =~= all_tasks);
            lemma_member_tasks_total(queue.spec_members());
        }
        AssetsDownloader { queue, skipped, assets, indexes, id }
    }

    /// The denominator reported before work begins: transferred and skipped
    /// assets alike count one unit each.
    pub fn total(&self) -> (t: u32)
        requires
            self.spec_total() <= u32::MAX,
        ensures
            t == self.spec_total(),
    {
        proof {
            lemma_member_tasks_total(self.spec_members());
        }
        self.queue.total() + self.skipped
    }

    /// Emit the one progress unit owed for every asset that was satisfied
    /// locally, keeping the observer's numerator consistent with the
    /// denominator.
    pub fn emit_skips(&self, sink: &mut ProgressLog)
        ensures
            final(sink).spec_events() == old(sink).spec_events() + unit_events(
                self.spec_skipped(),
            ),
            final(sink).spec_total() == old(sink).spec_total(),
    {
        let mut k: u32 = 0;
        while k < self.skipped
            invariant
                0 <= k <= self.skipped,
                sink.spec_events() == old(sink).spec_events() + unit_events(k as nat),
                sink.spec_total() == old(sink).spec_total(),
            decreases self.skipped - k,
        {
            sink.send(ProgressEvent::Unit);
            proof {
                assert(unit_events(k as nat).push(ProgressEvent::Unit) =~= unit_events(
                    (k + 1) as nat,
                ));
            }
            k = k + 1;
        }
    }

    pub fn assets(&self) -> (r: &Assets)
        ensures
            r == self.spec_assets(),
    {
        &self.assets
    }

    pub fn id(&self) -> (r: &String)
        ensures
            r@ == self.spec_id(),
    {
        &self.id
    }

    pub fn indexes_dir(&self) -> (r: &String)
        ensures
            r@ == self.spec_indexes(),
    {
        &self.indexes
    }

    /// Consume the plan, yielding the queue for the driver to execute.
    pub fn into_queue(self) -> (q: DownloadQueue)
        ensures
            q.spec_members() == self.spec_members(),
    {
        self.queue
    }
}

} // verus!

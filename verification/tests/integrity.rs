use nomi_core::assets::{AssetEntry, AssetInformation, Assets, AssetsDownloader};
use nomi_core::batch::Downloader;
use nomi_core::hash::{calculate_sha1, file_matches};
use nomi_core::modrinth::{Dependency, FileHashes, ProjectId, VersionFile};
use nomi_core::mods::{dependency_entry, plan_mod_files, push_dependency, resolve_plan};
use nomi_core::progress::{ProgressEvent, ProgressLog};
use nomi_core::task::{DownloadResult, DownloadStatus};

fn version_file(name: &str, sha1: &str, primary: bool) -> VersionFile {
    VersionFile {
        hashes: FileHashes { sha1: sha1.to_string() },
        url: format!("https://cdn.example.com/{name}"),
        filename: name.to_string(),
        primary,
    }
}

#[test]
fn sha1_of_known_bytes() {
    assert_eq!(
        calculate_sha1(&Vec::new()),
        "da39a3ee5e6b4b0d3255bfef95601890afd80709"
    );
    assert_eq!(
        calculate_sha1(&b"abc".to_vec()),
        "a9993e364706816aba3e25717850c26c9cd0d89d"
    );
    // Binary content that is not valid UTF-8 hashes all the same.
    assert_eq!(
        calculate_sha1(&vec![0u8, 159, 146, 150]),
        "55783b288de682c7014b74fa3d6d6528e5ad396c"
    );
}

#[test]
fn file_matches_compares_digest() {
    assert!(file_matches(
        &Vec::new(),
        &"da39a3ee5e6b4b0d3255bfef95601890afd80709".to_string()
    ));
    assert!(!file_matches(
        &b"abc".to_vec(),
        &"da39a3ee5e6b4b0d3255bfef95601890afd80709".to_string()
    ));
}

#[test]
fn matching_hash_is_skipped_with_one_unit() {
    let files = vec![
        version_file("present.jar", "aa11", true),
        version_file("absent.jar", "bb22", true),
        version_file("secondary.jar", "cc33", false),
    ];
    let local = vec![Some("aa11".to_string()), None, None];
    let mut sink = ProgressLog::new();
    let (set, records) = plan_mod_files(&files, &"./mods".to_string(), &local, &mut sink);

    // The satisfied file is excluded from the submitted set but still
    // contributes exactly one progress unit; the non-primary file gets
    // neither.
    assert_eq!(set.total(), 1);
    assert_eq!(sink.event_count(), 1);
    assert!(matches!(sink.events()[0], ProgressEvent::Unit));
    let tasks = set.tasks();
    assert_eq!(tasks[0].url(), "https://cdn.example.com/absent.jar");
    assert_eq!(tasks[0].path(), "./mods/absent.jar");
    assert_eq!(tasks[0].expected_sha1().as_deref(), Some("bb22"));
    assert_eq!(records.len(), 1);
    assert_eq!(records[0].filename, "absent.jar");
    assert_eq!(records[0].sha1, "bb22");
}

#[test]
fn mismatched_hash_is_submitted() {
    let files = vec![version_file("stale.jar", "11ff", true)];
    let local = vec![Some("22ee".to_string())];
    let mut sink = ProgressLog::new();
    let (set, records) = plan_mod_files(&files, &"./mods".to_string(), &local, &mut sink);

    // A file on disk with the wrong hash is submitted, not skipped, and the
    // task targets the same destination so a successful transfer overwrites
    // it.
    assert_eq!(set.total(), 1);
    assert_eq!(sink.event_count(), 0);
    assert_eq!(set.tasks()[0].path(), "./mods/stale.jar");
    assert_eq!(records.len(), 1);
}

#[test]
fn second_pass_submits_nothing() {
    let files = vec![
        version_file("a.jar", "aa11", true),
        version_file("b.jar", "bb22", true),
    ];
    let first = vec![None, Some("bb22".to_string())];
    let mut sink = ProgressLog::new();
    let (set, _) = plan_mod_files(&files, &"./mods".to_string(), &first, &mut sink);
    assert_eq!(set.total(), 1);

    // After the submitted transfer lands with the expected contents, the
    // local files are unchanged from the engine's point of view, and a
    // second pass skips everything: zero network requests.
    let second = vec![Some("aa11".to_string()), Some("bb22".to_string())];
    let mut sink2 = ProgressLog::new();
    let (set2, records2) = plan_mod_files(&files, &"./mods".to_string(), &second, &mut sink2);
    assert_eq!(set2.total(), 0);
    assert!(records2.is_empty());
    assert_eq!(sink2.event_count(), 2);
}

#[test]
fn dependency_classification() {
    let untyped = Dependency {
        project_id: ProjectId("fabric-api".to_string()),
        dependency_type: None,
    };
    let optional = Dependency {
        project_id: ProjectId("sodium".to_string()),
        dependency_type: Some("optional".to_string()),
    };
    let required = Dependency {
        project_id: ProjectId("cloth-config".to_string()),
        dependency_type: Some("required".to_string()),
    };
    assert!(dependency_entry(&untyped, Vec::new()).is_required);
    assert!(!dependency_entry(&optional, Vec::new()).is_required);
    assert!(dependency_entry(&required, Vec::new()).is_required);
}

#[test]
fn empty_catalog_answer_falls_back_to_placeholder() {
    let dep = Dependency {
        project_id: ProjectId("abcdEF12".to_string()),
        dependency_type: Some("optional".to_string()),
    };
    let entry = dependency_entry(&dep, Vec::new());
    assert_eq!(entry.name, "Dependency. abcdEF12");
    assert!(entry.versions.is_empty());
    assert!(!entry.is_required);
}

#[test]
fn resolution_is_all_or_nothing() {
    let deps = vec![
        Dependency {
            project_id: ProjectId("fabric-api".to_string()),
            dependency_type: None,
        },
        Dependency {
            project_id: ProjectId("sodium".to_string()),
            dependency_type: Some("optional".to_string()),
        },
    ];

    // Every edge answered: one entry per edge, classification per edge.
    let answers = vec![Ok(Vec::new()), Ok(Vec::new())];
    let plan = resolve_plan(&deps, answers).expect("all queries answered");
    assert_eq!(plan.len(), 2);
    assert_eq!(plan[0].name, "Dependency. fabric-api");
    assert!(plan[0].is_required);
    assert!(!plan[1].is_required);

    // One failed query aborts the whole resolution with that edge's error:
    // no partial plan.
    let answers = vec![
        Ok(Vec::new()),
        Err("catalog unreachable".to_string()),
    ];
    let err = resolve_plan(&deps, answers).expect_err("a query failed");
    assert_eq!(err, "catalog unreachable");
}

#[test]
fn push_dependency_appends_one_entry() {
    let dep = Dependency {
        project_id: ProjectId("cloth-config".to_string()),
        dependency_type: Some("required".to_string()),
    };
    let mut dist = Vec::new();
    push_dependency(&mut dist, &dep, Vec::new());
    assert_eq!(dist.len(), 1);
    assert_eq!(dist[0].name, "Dependency. cloth-config");
    assert!(dist[0].is_required);
}

fn asset_hash(i: usize) -> String {
    format!("{i:040x}")
}

#[test]
fn asset_index_name_uniqueness() {
    let entry = |name: &str| AssetEntry {
        name: name.to_string(),
        info: AssetInformation { hash: asset_hash(1), size: 1 },
    };
    let unique = Assets { objects: vec![entry("a"), entry("b"), entry("c")] };
    assert!(unique.has_unique_names());
    let duplicated = Assets { objects: vec![entry("a"), entry("b"), entry("a")] };
    assert!(!duplicated.has_unique_names());
    assert!(Assets { objects: Vec::new() }.has_unique_names());
}

#[test]
fn asset_scenario_hundred_entries() {
    let mut objects = Vec::new();
    for i in 0..100 {
        objects.push(AssetEntry {
            name: format!("asset/{i}"),
            info: AssetInformation { hash: asset_hash(i), size: 64 },
        });
    }
    // Three entries are already present locally with the correct digest.
    let mut local: Vec<Option<String>> = vec![None; 100];
    local[5] = Some(asset_hash(5));
    local[41] = Some(asset_hash(41));
    local[99] = Some(asset_hash(99));

    let downloader = AssetsDownloader::build(
        Assets { objects },
        &"./assets/objects".to_string(),
        &local,
        "./assets/indexes".to_string(),
        "1.18".to_string(),
    );

    // total = 100, network tasks = 97, skip events = 3.
    assert_eq!(downloader.total(), 100);
    let mut sink = ProgressLog::new();
    sink.set_total(downloader.total());
    downloader.emit_skips(&mut sink);
    assert_eq!(sink.event_count(), 3);
    for event in sink.events() {
        assert!(matches!(event, ProgressEvent::Unit));
    }

    let queue = downloader.into_queue();
    assert_eq!(queue.total(), 97);

    // Drive the one chunk: after completion ok + err accounts for all 97
    // submitted tasks.
    let members = queue.into_members();
    assert_eq!(members.len(), 1);
    let mut submitted = 0usize;
    for member in members {
        match member {
            Downloader::Chunked(mut chunk) => {
                let n = chunk.total() as usize;
                assert!(n <= 100);
                let outcomes = (0..n)
                    .map(|_| DownloadResult(Ok(DownloadStatus::Success)))
                    .collect::<Vec<_>>();
                chunk.complete(outcomes, &mut sink);
                assert_eq!(chunk.ok_count() + chunk.err_count(), n);
                submitted += n;
            }
            _ => panic!("asset queue members are chunks"),
        }
    }
    assert_eq!(submitted, 97);
    assert_eq!(sink.event_count(), 100);
}

#[test]
fn asset_tasks_are_content_addressed() {
    let objects = vec![AssetEntry {
        name: "icons/icon_16x16.png".to_string(),
        info: AssetInformation {
            hash: "bdf48ef6b5d0d23bbb02e17d04865216179f510a".to_string(),
            size: 3665,
        },
    }];
    let downloader = AssetsDownloader::build(
        Assets { objects },
        &"./assets/objects".to_string(),
        &vec![None],
        "./assets/indexes".to_string(),
        "1.18".to_string(),
    );
    assert_eq!(downloader.id(), "1.18");
    assert_eq!(downloader.indexes_dir(), "./assets/indexes");
    let members = downloader.into_queue().into_members();
    match &members[0] {
        Downloader::Chunked(chunk) => {
            let task = &chunk.tasks()[0];
            assert_eq!(
                task.url(),
                "https://resources.download.minecraft.net/bd/bdf48ef6b5d0d23bbb02e17d04865216179f510a"
            );
            assert_eq!(
                task.path(),
                "./assets/objects/bd/bdf48ef6b5d0d23bbb02e17d04865216179f510a"
            );
        }
        _ => panic!("asset queue members are chunks"),
    }
}

#[test]
fn assets_chunked_by_hundred() {
    let mut objects = Vec::new();
    for i in 0..250 {
        objects.push(AssetEntry {
            name: format!("asset/{i}"),
            info: AssetInformation { hash: asset_hash(i), size: 1 },
        });
    }
    let local: Vec<Option<String>> = vec![None; 250];
    let downloader = AssetsDownloader::build(
        Assets { objects },
        &"./assets/objects".to_string(),
        &local,
        "./assets/indexes".to_string(),
        "1.20".to_string(),
    );
    assert_eq!(downloader.total(), 250);
    let members = downloader.into_queue().into_members();
    assert_eq!(members.len(), 3);
    let sizes = members
        .iter()
        .map(|m| match m {
            Downloader::Chunked(c) => c.total(),
            _ => panic!("asset queue members are chunks"),
        })
        .collect::<Vec<_>>();
    assert_eq!(sizes, vec![100, 100, 50]);
}

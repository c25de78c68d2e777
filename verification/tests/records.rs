use nomi_core::config::{Config, Profile};
use nomi_core::errors_pool::{ErrorsPool, ErrorsPoolState};
use nomi_core::meta::QuiltProfile;
use nomi_core::meta::QuiltArguments;
use nomi_core::modrinth::{Dependency, FileHashes, ProjectId, Version, VersionFile, VersionId};
use nomi_core::mods::{count_primary_files, mod_record, needs_link, CurrentlyLoaded, ModFile};
use nomi_core::profiles::{
    filter_versions_by_type, AddProfileMenuState, Loader, ProfileState, ProfilesState,
    VersionProfile, VersionType,
};
use nomi_core::state::{LauncherManifest, LauncherManifestVersion, ManifestState};

fn manifest_version(id: &str, version_type: &str) -> LauncherManifestVersion {
    LauncherManifestVersion {
        id: id.to_string(),
        url: format!("https://launchermeta.example.com/{id}.json"),
        version_type: version_type.to_string(),
    }
}

#[test]
fn find_version_returns_first_match() {
    let state = ManifestState {
        launcher: LauncherManifest {
            versions: vec![
                manifest_version("1.18.2", "release"),
                manifest_version("22w11a", "snapshot"),
                manifest_version("1.19", "release"),
            ],
        },
    };
    let found = state.find_version("22w11a").expect("version is listed");
    assert_eq!(found.version_type, "snapshot");
    assert!(state.find_version("1.7.10").is_none());
}

#[test]
fn filter_versions_by_kind() {
    let versions = vec![
        manifest_version("1.18.2", "release"),
        manifest_version("22w11a", "snapshot"),
        manifest_version("1.19", "release"),
    ];
    let releases = filter_versions_by_type(&versions, &VersionType::Release);
    let ids: Vec<&str> = releases.iter().map(|v| v.id.as_str()).collect();
    assert_eq!(ids, vec!["1.18.2", "1.19"]);
    let snapshots = filter_versions_by_type(&versions, &VersionType::Snapshot);
    assert_eq!(snapshots.len(), 1);
}

fn profile(id: i32, name: &str) -> VersionProfile {
    VersionProfile {
        id,
        name: name.to_string(),
        state: ProfileState::NotDownloaded {
            version: "1.18.2".to_string(),
            loader: Loader::Vanilla,
            version_type: VersionType::Release,
        },
    }
}

#[test]
fn profile_ids_follow_the_maximum() {
    let mut profiles = ProfilesState::default_const();
    assert_eq!(profiles.create_id(), 0);
    profiles.add_profile(profile(5, "first"));
    profiles.add_profile(profile(3, "second"));
    assert_eq!(profiles.create_id(), 6);
    assert_eq!(profiles.profiles.len(), 2);
}

#[test]
fn menu_state_defaults() {
    let state = AddProfileMenuState::default_const();
    assert!(matches!(state.selected_version_type, VersionType::Release));
    assert!(state.profile_name_buf.is_empty());
    assert!(state.selected_version_buf.is_none());
    assert!(matches!(state.loader_buf, Loader::Vanilla));
}

#[test]
fn config_profile_ids_and_lookup() {
    let mut config = Config::new("steve".to_string());
    let first = Profile::new(
        "1.18.2".to_string(),
        "release".to_string(),
        "./profiles/a".to_string(),
        &config.profiles,
    );
    config.add_profile(first);
    let second = Profile::new(
        "1.19".to_string(),
        "release".to_string(),
        "./profiles/b".to_string(),
        &config.profiles,
    );
    config.add_profile(second);

    assert_eq!(Profile::create_id(&config.profiles), 2);
    let found = config.get_profile(1).expect("second profile exists");
    assert_eq!(found.version, "1.19");
    assert!(config.get_profile(7).is_none());
}

#[test]
fn config_resolution_prefers_requested_username() {
    let read = Config::new("alex".to_string());
    let resolved = Config::resolve(Some(read), Some("steve".to_string()));
    assert_eq!(resolved.username, "steve");

    let kept = Config::resolve(Some(Config::new("alex".to_string())), None);
    assert_eq!(kept.username, "alex");

    let fresh = Config::resolve(None, Some("steve".to_string()));
    assert_eq!(fresh.username, "steve");
    assert!(fresh.profiles.is_empty());
}

#[test]
fn errors_pool_collects_and_clears() {
    let mut pool = ErrorsPool::new();
    assert!(pool.is_empty());
    pool.push_error("no such file".to_string());
    pool.push_error("connection reset".to_string());
    assert_eq!(pool.len(), 2);
    assert_eq!(pool.iter_errors()[1], "connection reset");
    pool.clear();
    assert!(pool.is_empty());

    let window = ErrorsPoolState::default();
    assert!(!window.is_window_open);
    assert_eq!(window.number_of_errors, 0);
}

#[test]
fn currently_loaded_marker() {
    let mut marker = CurrentlyLoaded::new(3);
    assert!(marker.matches_profile(3));
    assert!(!marker.matches_profile(4));
    marker.set_id(4);
    assert_eq!(marker.id(), 4);
}

#[test]
fn link_needed_only_for_absent_names() {
    let existing = vec!["a.jar".to_string(), "b.jar".to_string()];
    assert!(!needs_link(&"a.jar".to_string(), &existing));
    assert!(needs_link(&"c.jar".to_string(), &existing));
    assert!(needs_link(&"c.jar".to_string(), &Vec::new()));
}

fn catalog_version(name: &str, files: Vec<VersionFile>) -> Version {
    Version {
        id: VersionId(format!("{name}-id")),
        project_id: ProjectId(format!("{name}-project")),
        name: name.to_string(),
        files,
        dependencies: vec![Dependency {
            project_id: ProjectId("fabric-api".to_string()),
            dependency_type: None,
        }],
    }
}

fn primary_file(name: &str) -> VersionFile {
    VersionFile {
        hashes: FileHashes { sha1: "00aa".to_string() },
        url: format!("https://cdn.example.com/{name}"),
        filename: name.to_string(),
        primary: true,
    }
}

fn secondary_file(name: &str) -> VersionFile {
    VersionFile { primary: false, ..primary_file(name) }
}

#[test]
fn batch_total_counts_primary_files_only() {
    let versions = vec![
        catalog_version("one", vec![primary_file("one.jar"), secondary_file("one-src.jar")]),
        catalog_version("two", vec![primary_file("two.jar")]),
        catalog_version("three", vec![secondary_file("three-docs.jar")]),
    ];
    assert_eq!(count_primary_files(&versions), 2);
}

#[test]
fn mod_record_carries_version_identity() {
    let version = catalog_version("sodium", vec![primary_file("sodium.jar")]);
    let files = vec![ModFile {
        sha1: "00aa".to_string(),
        url: "https://cdn.example.com/sodium.jar".to_string(),
        filename: "sodium.jar".to_string(),
    }];
    let record = mod_record(&version, files);
    assert_eq!(record.name, "sodium");
    assert_eq!(record.version_id, VersionId("sodium-id".to_string()));
    assert_eq!(record.project_id, ProjectId("sodium-project".to_string()));
    assert!(record.is_installed);
    assert_eq!(record.files.len(), 1);
    assert_eq!(record.dependencies.len(), 1);
}

#[test]
fn quilt_profile_main_class() {
    let profile = QuiltProfile {
        id: "quilt-loader-0.19.2-1.18.2".to_string(),
        inherits_from: "1.18.2".to_string(),
        profile_type: "release".to_string(),
        main_class: "org.quiltmc.loader.impl.launch.knot.KnotClient".to_string(),
        arguments: QuiltArguments { game: Vec::new() },
        libraries: Vec::new(),
        release_time: String::new(),
        time: String::new(),
    };
    assert_eq!(
        profile.get_main_class(),
        "org.quiltmc.loader.impl.launch.knot.KnotClient"
    );
}

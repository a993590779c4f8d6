use minecraft_launcher::error::InstallError;
use minecraft_launcher::manifest::main;
use minecraft_launcher::manifest::version::{
    Arguments, AssetIndex, DownloadEntry, Downloads, Either, JavaVersion, Library, Main, Os, Timestamp,
    VersionType,
};

fn entry(url: &str, size: u64) -> DownloadEntry {
    DownloadEntry { sha1: String::from("0"), size, url: String::from(url) }
}

fn lib(name: &str) -> Library {
    Library { downloads: None, name: String::from(name), extract: None, natives: None, rules: None, url: None }
}

fn manifest(id: &str, parent: Option<&str>) -> Main {
    Main {
        arguments: None,
        asset_index: None,
        assets: None,
        compliance_level: None,
        downloads: None,
        id: String::from(id),
        java_version: None,
        libraries: Vec::new(),
        logging: None,
        main_class: String::from("net.minecraft.client.main.Main"),
        minimum_launcher_version: None,
        release_time: Timestamp { seconds: 1_600_000_000, nanos: 0 },
        time: Timestamp { seconds: 1_600_000_100, nanos: 0 },
        _type: VersionType::Release,
        minecraft_arguments: None,
        inherits_from: parent.map(String::from),
    }
}

fn lit(s: &str) -> Either<String, minecraft_launcher::manifest::version::CustomArguments> {
    Either::Left(String::from(s))
}

#[test]
fn os_names_round_trip() {
    for os in [Os::Windows, Os::MacOs, Os::Linux] {
        assert_eq!(Os::from_str(&os.to_str()), Some(os));
    }
    assert_eq!(Os::Windows.to_str(), "windows");
    assert_eq!(Os::MacOs.to_str(), "osx");
    assert_eq!(Os::Linux.to_str(), "linux");
    assert_eq!(Os::from_str("osx"), Some(Os::MacOs));
    assert_eq!(Os::from_str("macos"), None);
    assert_eq!(Os::from_str(""), None);
}

#[test]
fn version_kind_names() {
    assert_eq!(main::VersionType::from_str(String::from("release")), main::VersionType::Release);
    assert_eq!(main::VersionType::from_str(String::from("snapshot")), main::VersionType::Snapshot);
    assert_eq!(main::VersionType::from_str(String::from("old_beta")), main::VersionType::OldBeta);
    assert_eq!(main::VersionType::from_str(String::from("old_alpha")), main::VersionType::OldAlpha);
    assert_eq!(main::VersionType::OldBeta.to_string(), "old_beta");
    assert_eq!(VersionType::Pending.to_string(), "pending");
    assert_eq!(VersionType::OldAlpha.to_string(), "old_alpha");
}

#[test]
fn summaries_keep_id_kind_and_time() {
    let m = manifest("1.16.5", None);
    let s = m.to_min_version();
    assert_eq!(s.id, "1.16.5");
    assert_eq!(s._type, main::VersionType::Release);
    assert_eq!(s.release_time, Timestamp { seconds: 1_600_000_000, nanos: 0 });
    let listed = main::Version {
        id: String::from("b1.7.3"),
        _type: main::VersionType::OldBeta,
        url: String::from("https://example.invalid/b1.7.3.json"),
        time: Timestamp { seconds: 5, nanos: 0 },
        release_time: Timestamp { seconds: 4, nanos: 0 },
        sha1: String::from("0"),
        compliance_level: 0,
    };
    let s = listed.to_min_version();
    assert_eq!(s.id, "b1.7.3");
    assert_eq!(s._type, main::VersionType::OldBeta);
    assert_eq!(s.release_time, Timestamp { seconds: 4, nanos: 0 });
}

#[test]
fn modded_ids_are_found_in_any_case() {
    assert!(manifest("fabric-loader-0.14.21-1.20.1", None).is_modded());
    assert!(manifest("1.12.2-Forge14.23.5.2859", None).is_modded());
    assert!(manifest("1.20.1-OptiFine_HD_U_I5", None).is_modded());
    assert!(manifest("LiteLoader1.12.2", None).is_modded());
    assert!(!manifest("1.20.1", None).is_modded());
    assert!(!manifest("23w13a_or_b", None).is_modded());
    assert!(minecraft_launcher::manifest::version::is_modded_id("rift-1.13"));
    assert!(!minecraft_launcher::manifest::version::is_modded_id("Rift-1.13"));
}

#[test]
fn downloads_fill_missing_entries_from_parent() {
    let child = Downloads { client: entry("c", 1), client_mappings: None, server: Some(entry("s", 2)), server_mappings: None };
    let parent = Downloads {
        client: entry("pc", 10),
        client_mappings: Some(entry("pcm", 11)),
        server: Some(entry("ps", 12)),
        server_mappings: Some(entry("psm", 13)),
    };
    let merged = child.inherit(parent);
    assert_eq!(merged.client, entry("c", 1));
    assert_eq!(merged.client_mappings, Some(entry("pcm", 11)));
    assert_eq!(merged.server, Some(entry("s", 2)));
    assert_eq!(merged.server_mappings, Some(entry("psm", 13)));
}

#[test]
fn arguments_are_appended_independently() {
    let child = Arguments { game: vec![lit("--a")], jvm: Some(vec![lit("-Xa")]) };
    let parent = Arguments { game: vec![lit("--b"), lit("--c")], jvm: Some(vec![lit("-Xb")]) };
    let merged = child.inherit(parent);
    assert_eq!(merged.game, vec![lit("--a"), lit("--b"), lit("--c")]);
    assert_eq!(merged.jvm, Some(vec![lit("-Xa"), lit("-Xb")]));

    let child = Arguments { game: vec![], jvm: None };
    let parent = Arguments { game: vec![lit("--b")], jvm: Some(vec![lit("-Xb")]) };
    let merged = child.inherit(parent);
    assert_eq!(merged.game, vec![lit("--b")]);
    assert_eq!(merged.jvm, Some(vec![lit("-Xb")]));

    let child = Arguments { game: vec![], jvm: Some(vec![lit("-Xa")]) };
    let parent = Arguments { game: vec![], jvm: None };
    assert_eq!(child.inherit(parent).jvm, Some(vec![lit("-Xa")]));
}

#[test]
fn child_fields_win_and_libraries_append() {
    let mut child = manifest("fabric-1.20", Some("1.20"));
    child.libraries = vec![lib("net.fabricmc:fabric-loader:0.14.21")];
    child.main_class = String::from("net.fabricmc.loader.impl.launch.knot.KnotClient");
    child.arguments = Some(Arguments { game: vec![], jvm: Some(vec![lit("-DFabricMcEmu=x")]) });
    let mut parent = manifest("1.20", None);
    parent.libraries = vec![lib("com.mojang:brigadier:1.1.8"), lib("org.lwjgl:lwjgl:3.3.1")];
    parent.asset_index = Some(AssetIndex {
        id: String::from("5"),
        sha1: String::from("0"),
        size: 7,
        total_size: 9,
        url: String::from("https://example.invalid/5.json"),
    });
    parent.downloads = Some(Downloads { client: entry("client", 3), client_mappings: None, server: None, server_mappings: None });
    parent.java_version = Some(JavaVersion { component: String::from("java-runtime-gamma"), major_version: 17 });
    parent.arguments = Some(Arguments { game: vec![lit("--username")], jvm: Some(vec![lit("-cp")]) });
    parent._type = VersionType::Snapshot;

    let merged = child.inherit(parent);
    assert_eq!(merged.id, "fabric-1.20");
    assert_eq!(merged.main_class, "net.fabricmc.loader.impl.launch.knot.KnotClient");
    assert_eq!(merged._type, VersionType::Release);
    assert_eq!(merged.inherits_from, Some(String::from("1.20")));
    assert_eq!(
        merged.libraries.iter().map(|l| l.name.as_str()).collect::<Vec<_>>(),
        vec!["net.fabricmc:fabric-loader:0.14.21", "com.mojang:brigadier:1.1.8", "org.lwjgl:lwjgl:3.3.1"]
    );
    assert_eq!(merged.asset_index.as_ref().map(|a| a.id.as_str()), Some("5"));
    assert_eq!(merged.downloads.as_ref().map(|d| d.client.url.as_str()), Some("client"));
    assert_eq!(merged.java_version.as_ref().map(|j| j.major_version), Some(17));
    let args = merged.arguments.unwrap();
    assert_eq!(args.game, vec![lit("--username")]);
    assert_eq!(args.jvm, Some(vec![lit("-DFabricMcEmu=x"), lit("-cp")]));
}

#[test]
fn chained_inheritance_resolves_hop_by_hop() {
    let mut child = manifest("c", Some("b"));
    child.libraries = vec![lib("g:c:1")];
    let mut b = manifest("b", Some("a"));
    b.libraries = vec![lib("g:b:1")];
    let mut a = manifest("a", None);
    a.libraries = vec![lib("g:a:1")];
    a.assets = Some(String::from("legacy"));

    let mut visited = vec![String::from("c")];
    let step = child.inherit_next(b, &mut visited).unwrap();
    assert_eq!(step.inherits_from, Some(String::from("a")));
    assert_eq!(visited, vec![String::from("c"), String::from("b")]);
    let done = step.inherit_next(a, &mut visited).unwrap();
    assert_eq!(done.inherits_from, None);
    assert_eq!(done.id, "c");
    assert_eq!(done.assets, Some(String::from("legacy")));
    assert_eq!(done.libraries.iter().map(|l| l.name.as_str()).collect::<Vec<_>>(), vec!["g:c:1", "g:b:1", "g:a:1"]);
    assert_eq!(visited.len(), 3);

    let resolved = manifest("x", None);
    let untouched = resolved.clone().inherit_next(manifest("y", None), &mut visited).unwrap();
    assert_eq!(untouched, resolved);
}

#[test]
fn wrong_parent_is_reported() {
    let child = manifest("c", Some("b"));
    let mut visited = vec![String::from("c")];
    let r = child.inherit_next(manifest("other", None), &mut visited);
    assert_eq!(r, Err(InstallError::ManifestIncomplete(String::from("b"))));
    assert_eq!(visited, vec![String::from("c")]);
}

#[test]
fn inheritance_cycle_is_reported() {
    let child = manifest("a", Some("b"));
    let mut visited = vec![String::from("a")];
    let step = child.inherit_next(manifest("b", Some("a")), &mut visited).unwrap();
    let r = step.inherit_next(manifest("a", Some("b")), &mut visited);
    assert_eq!(r, Err(InstallError::InheritanceCycle(String::from("a"))));
}

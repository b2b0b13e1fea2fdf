use mcapi::hangar::{Platform, VersionsFilter};
use mcapi::purpurmc::{PurpurBuild, PurpurBuilds, PurpurCommit, PurpurVersion, PurpurVersionShort};
use mcapi::quilt::InstallerVariant;
use mcapi::table::StringTable;
use mcapi::text::{characters, starts_with};
use mcapi::vanilla::version::clone_optional;
use mcapi::vanilla::{MCAsset, VersionIndex, VersionManifest, VersionType, LatestVersions};
use mcapi::version::{Comparator, Op};
use mcapi::{MCVersion, MCVersionReq};

fn build(id: &str) -> PurpurBuild {
    PurpurBuild {
        project: "purpur".to_string(),
        version: "1.20.1".to_string(),
        build: id.to_string(),
        result: "SUCCESS".to_string(),
        timestamp: 1,
        duration: 2,
        commits: vec![PurpurCommit {
            author: "a".to_string(),
            email: "e".to_string(),
            description: "d".to_string(),
            hash: "h".to_string(),
            timestamp: 3,
        }],
        md5: format!("md5-{id}"),
    }
}

fn index(id: &str, url: &str) -> VersionIndex {
    VersionIndex {
        id: id.to_string(),
        version_type: VersionType::Release,
        url: url.to_string(),
        time: String::new(),
        release_time: String::new(),
        sha1: String::new(),
        compliance_level: 1,
    }
}

#[test]
fn table_keeps_one_value_per_key() {
    let mut t: StringTable<u32> = StringTable::new();
    assert!(t.get("a").is_none());
    assert!(!t.contains_key("a"));
    t.insert("a".to_string(), 1);
    t.insert("b".to_string(), 2);
    t.insert("a".to_string(), 3);
    assert_eq!(t.get("a"), Some(&3));
    assert_eq!(t.get("b"), Some(&2));
    assert_eq!(t.get("c"), None);
    assert!(t.contains_key("b"));
    assert_eq!(t.entries.len(), 2);
    assert_eq!(t.position("b"), Some(1));
    assert_eq!(t.position(""), None);
}

#[test]
fn table_lookup_takes_the_first_entry() {
    let t = StringTable { entries: vec![("k".to_string(), 1), ("k".to_string(), 2)] };
    assert_eq!(t.get("k"), Some(&1));
}

#[test]
fn comparator_matches_by_major_then_minor() {
    let v = MCVersion::new(19, 4);
    let c = |op, major, minor| Comparator { op, major, minor };
    assert!(c(Op::Exact, 19, 4).matches(&v));
    assert!(!c(Op::Exact, 19, 3).matches(&v));
    assert!(c(Op::Greater, 19, 3).matches(&v));
    assert!(c(Op::Greater, 18, 9).matches(&v));
    assert!(!c(Op::Greater, 19, 4).matches(&v));
    assert!(c(Op::GreaterEq, 19, 4).matches(&v));
    assert!(!c(Op::GreaterEq, 20, 0).matches(&v));
    assert!(c(Op::Less, 19, 5).matches(&v));
    assert!(c(Op::Less, 20, 0).matches(&v));
    assert!(!c(Op::Less, 19, 4).matches(&v));
    assert!(c(Op::LessEq, 19, 4).matches(&v));
    assert!(!c(Op::LessEq, 18, 9).matches(&v));
    assert!(c(Op::Wildcard, 0, 0).matches(&v));
}

#[test]
fn requirement_needs_every_comparator() {
    let v = MCVersion::new(19, 4);
    assert!(v.is_release);
    assert_eq!((v.major, v.minor), (19, 4));
    assert_eq!(v.extra, "");
    assert!(MCVersionReq::any().matches(&v));
    assert!(MCVersionReq::default().matches(&v));
    let both = MCVersionReq {
        comparators: vec![
            Comparator { op: Op::Greater, major: 19, minor: 0 },
            Comparator { op: Op::Less, major: 19, minor: 9 },
        ],
    };
    assert!(both.matches(&v));
    assert!(!both.matches(&MCVersion::new(19, 9)));
    assert!(!both.matches(&MCVersion::new(19, 0)));
}

#[test]
fn quilt_installer_addresses() {
    let universal = InstallerVariant::Universal;
    assert_eq!(
        universal.get_metadata_url(),
        "https://maven.quiltmc.org/repository/release/org/quiltmc/quilt-installermaven-metadata.xml"
    );
    assert_eq!(
        universal.get_artifact_url("0.9.1"),
        "https://maven.quiltmc.org/repository/release/org/quiltmc/quilt-installer/0.9.1/quilt-installer-0.9.1.jar"
    );
    let windows = InstallerVariant::Native("windows-x64".to_string());
    assert_eq!(
        windows.get_metadata_url(),
        "https://maven.quiltmc.org/repository/release/org/quiltmc/quilt-installer-native-bootstrapwindows-x64/maven-metadata.xml"
    );
    assert_eq!(
        windows.get_artifact_url("0.1.0"),
        "https://maven.quiltmc.org/repository/release/org/quiltmc/quilt-installer-native-bootstrap/windows-x64/0.1.0/windows-x64-0.1.0.exe"
    );
    let linux = InstallerVariant::Native("linux-x64".to_string());
    assert_eq!(
        linux.get_artifact_url("0.1.0"),
        "https://maven.quiltmc.org/repository/release/org/quiltmc/quilt-installer-native-bootstrap/linux-x64/0.1.0/linux-x64-0.1.0"
    );
    let short = InstallerVariant::Native("win".to_string());
    assert!(short.get_artifact_url("1").ends_with("/win/1/win-1"));
}

#[test]
fn asset_path_starts_with_two_characters_of_the_hash() {
    let asset = MCAsset { hash: "bdf48ef6b5d0d23bbb02e17d04865216179f510a".to_string(), size: 9 };
    assert_eq!(asset.get_path(), "bd/bdf48ef6b5d0d23bbb02e17d04865216179f510a");
    assert_eq!(
        asset.get_url(),
        "https://resources.download.minecraft.net/bd/bdf48ef6b5d0d23bbb02e17d04865216179f510a"
    );
    let two = MCAsset { hash: "ab".to_string(), size: 0 };
    assert_eq!(two.get_path(), "ab/ab");
    let wide = MCAsset { hash: "\u{e9}x".to_string(), size: 0 };
    assert_eq!(wide.get_path(), "\u{e9}/\u{e9}x");
}

#[test]
fn manifest_finds_the_first_version_with_the_id() {
    let manifest = VersionManifest {
        latest: LatestVersions { release: "1.20.1".to_string(), snapshot: "23w31a".to_string() },
        versions: vec![index("1.20.1", "first"), index("1.19", "old"), index("1.20.1", "second")],
    };
    assert_eq!(manifest.find("1.20.1").unwrap().url, "first");
    assert_eq!(manifest.find("1.19").unwrap().url, "old");
    assert_eq!(manifest.find("1.19").unwrap().version_type, VersionType::Release);
    assert!(manifest.find("1.18").is_none());
    assert!(manifest.find("").is_none());
}

#[test]
fn purpur_builds_are_found_by_id() {
    let version = PurpurVersion {
        project: "purpur".to_string(),
        version: "1.20.1".to_string(),
        builds: PurpurBuilds { latest: build("3"), all: vec![build("1"), build("2"), build("3")] },
    };
    let latest = version.get_latest_build();
    assert_eq!(latest.build, "3");
    assert_eq!(latest.md5, "md5-3");
    assert_eq!(latest.commits.len(), 1);
    assert_eq!(latest.commits[0].hash, "h");
    assert_eq!((latest.timestamp, latest.duration), (1, 2));
    assert_eq!(version.get_build("2").unwrap().md5, "md5-2");
    assert!(version.get_build("4").is_none());
    let short = PurpurVersionShort {
        project: "purpur".to_string(),
        version: "1.20.1".to_string(),
        builds: PurpurBuilds { latest: "3".to_string(), all: vec!["1".to_string()] },
    };
    assert_eq!(short.get_latest_build_id(), "3");
}

#[test]
fn hangar_names_and_defaults() {
    assert_eq!(Platform::Paper.to_string(), "PAPER");
    assert_eq!(Platform::Waterfall.to_string(), "WATERFALL");
    assert_eq!(Platform::Velocity.to_string(), "VELOCITY");
    let filter = VersionsFilter::default();
    assert_eq!((filter.limit, filter.offset), (25, 0));
    assert!(filter.channel.is_none() && filter.platform.is_none());
    assert!(filter.platform_version.is_none());
}

#[test]
fn characters_are_read_in_order() {
    assert_eq!(characters("a\u{e9}\u{1F600}z"), vec!['a', '\u{e9}', '\u{1F600}', 'z']);
    assert_eq!(characters(""), Vec::<char>::new());
}

#[test]
fn prefix_is_compared_character_by_character() {
    assert!(starts_with("windows-x64", "windows"));
    assert!(starts_with("windows", "windows"));
    assert!(starts_with("anything", ""));
    assert!(!starts_with("window", "windows"));
    assert!(!starts_with("Windows-x64", "windows"));
    assert!(!starts_with("", "w"));
}

#[test]
fn optional_text_is_copied() {
    assert_eq!(clone_optional(&Some("x".to_string())), Some("x".to_string()));
    assert_eq!(clone_optional(&None), None);
}

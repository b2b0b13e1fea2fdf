use mcapi::table::StringTable;
use mcapi::vanilla::{
    PistonArtifact, PistonFile, PistonLibrary, PistonRule, PistonRuleConstraintOS,
    PistonRuleConstraints, PistonRuleMatcher,
};
use mcapi::McError;

fn windows_host() -> PistonRuleMatcher {
    PistonRuleMatcher::new("windows".to_string(), "x86_64".to_string(), "10.0".to_string())
}

fn os(name: &str, arch: &str, version: &str) -> PistonRuleConstraints {
    PistonRuleConstraints {
        os: Some(PistonRuleConstraintOS {
            name: name.to_string(),
            arch: arch.to_string(),
            version: version.to_string(),
        }),
        features: None,
    }
}

fn needs(features: &[&str]) -> PistonRuleConstraints {
    let mut table = StringTable::new();
    for f in features {
        table.insert(f.to_string(), true);
    }
    PistonRuleConstraints { os: None, features: Some(table) }
}

fn file(url: &str) -> PistonFile {
    PistonFile {
        sha1: "da39a3ee".to_string(),
        size: 7,
        url: url.to_string(),
        id: None,
        total_size: 7,
        path: Some(format!("lib/{url}")),
    }
}

#[test]
fn empty_rule_list_passes_on_any_host() {
    assert!(windows_host().match_rules(&vec![]).unwrap());
    assert!(PistonRuleMatcher::empty().match_rules(&vec![]).unwrap());
}

#[test]
fn allow_rule_for_the_hosts_system_passes() {
    let rules = vec![PistonRule::Allow(os("windows", "", ""))];
    assert_eq!(windows_host().match_rules(&rules).unwrap(), true);
}

#[test]
fn deny_rule_that_matches_fails_the_list() {
    let rules = vec![
        PistonRule::Allow(os("windows", "", "")),
        PistonRule::Deny(os("windows", "x86_64", "")),
    ];
    assert_eq!(windows_host().match_rules(&rules).unwrap(), false);
}

#[test]
fn invalid_version_pattern_is_an_error() {
    let rules = vec![PistonRule::Allow(os("", "", "["))];
    assert!(matches!(windows_host().match_rules(&rules), Err(McError::Regex(_))));
    assert!(matches!(PistonRuleMatcher::empty().match_rules(&rules), Err(McError::Regex(_))));
    assert!(matches!(
        windows_host().match_rule(&PistonRule::Deny(os("", "", "["))),
        Err(McError::Regex(_))
    ));
    assert!(matches!(windows_host().match_constraint(&os("", "", "[")), Err(McError::Regex(_))));
}

#[test]
fn invalid_pattern_behind_a_failing_rule_is_never_read() {
    let rules = vec![PistonRule::Allow(os("linux", "", "")), PistonRule::Allow(os("", "", "["))];
    assert_eq!(windows_host().match_rules(&rules).unwrap(), false);
    // The name is checked before the version.
    assert_eq!(windows_host().match_constraint(&os("linux", "", "[")).unwrap(), false);
    assert_eq!(windows_host().match_constraint(&os("", "arm", "[")).unwrap(), false);
}

#[test]
fn invalid_pattern_before_a_failing_rule_is_an_error() {
    let rules = vec![PistonRule::Allow(os("", "", "[")), PistonRule::Allow(os("linux", "", ""))];
    assert!(matches!(windows_host().match_rules(&rules), Err(McError::Regex(_))));
}

#[test]
fn allow_and_deny_are_opposites() {
    let host = windows_host();
    for c in [os("windows", "", ""), os("linux", "", ""), os("", "x86_64", "^10"), needs(&["demo"])]
    {
        let met = host.match_constraint(&c).unwrap();
        assert_eq!(host.match_rule(&PistonRule::Allow(c.clone())).unwrap(), met);
        assert_eq!(host.match_rule(&PistonRule::Deny(c)).unwrap(), !met);
    }
}

#[test]
fn list_passes_exactly_when_every_rule_passes() {
    let host = windows_host();
    let candidates = [
        PistonRule::Allow(os("windows", "", "")),
        PistonRule::Deny(os("linux", "", "")),
        PistonRule::Allow(os("osx", "", "")),
        PistonRule::Deny(os("", "x86_64", "")),
    ];
    for a in &candidates {
        for b in &candidates {
            for c in &candidates {
                let list = vec![a.clone(), b.clone(), c.clone()];
                let each = list.iter().all(|r| host.match_rule(r).unwrap());
                assert_eq!(host.match_rules(&list).unwrap(), each);
            }
        }
    }
}

#[test]
fn os_name_is_compared_exactly() {
    let host = windows_host();
    assert_eq!(host.match_constraint(&os("Windows", "", "")).unwrap(), false);
    assert_eq!(host.match_constraint(&os("windows", "x86_64", "")).unwrap(), true);
    assert_eq!(host.match_constraint(&os("windows", "x86", "")).unwrap(), false);
    assert_eq!(host.match_os_name(&os("windows", "x86_64", "[")), true);
}

#[test]
fn absent_parts_constrain_nothing() {
    let none = PistonRuleConstraints { os: None, features: None };
    assert!(windows_host().match_constraint(&none).unwrap());
    assert!(PistonRuleMatcher::empty().match_constraint(&none).unwrap());
    assert!(PistonRuleMatcher::empty().match_constraint(&os("", "", "")).unwrap());
    assert!(windows_host().match_constraint(&needs(&[])).unwrap());
}

#[test]
fn version_pattern_is_searched_anywhere_in_the_version() {
    let host = windows_host();
    assert_eq!(host.match_constraint(&os("", "", "^10\\.")).unwrap(), true);
    assert_eq!(host.match_constraint(&os("", "", "0\\.0$")).unwrap(), true);
    assert_eq!(host.match_constraint(&os("", "", "^11\\.")).unwrap(), false);
    assert_eq!(host.match_constraint(&os("", "", "^0")).unwrap(), false);
    // A pattern is no literal: the text of the pattern itself is not what is looked for.
    assert_eq!(host.match_constraint(&os("", "", "1.\\.")).unwrap(), true);
}

#[test]
fn features_must_be_present_and_on() {
    let mut host = windows_host();
    assert_eq!(host.match_constraint(&needs(&["demo"])).unwrap(), false);
    host.features.insert("demo".to_string(), false);
    assert_eq!(host.match_constraint(&needs(&["demo"])).unwrap(), false);
    assert!(!host.feature_enabled("demo"));
    host.features.insert("demo".to_string(), true);
    assert_eq!(host.match_constraint(&needs(&["demo"])).unwrap(), true);
    assert!(host.feature_enabled("demo"));
    assert_eq!(host.match_constraint(&needs(&["demo", "custom"])).unwrap(), false);
    host.features.insert("custom".to_string(), true);
    assert_eq!(host.match_constraint(&needs(&["demo", "custom"])).unwrap(), true);
    assert!(host.match_features(&needs(&["custom"])));
}

#[test]
fn only_the_keys_of_required_features_count() {
    let mut host = windows_host();
    host.features.insert("demo".to_string(), true);
    let mut table = StringTable::new();
    table.insert("demo".to_string(), false);
    let c = PistonRuleConstraints { os: None, features: Some(table) };
    assert_eq!(host.match_constraint(&c).unwrap(), true);
}

#[test]
fn conclusion_follows_the_search() {
    let mut host = windows_host();
    host.features.insert("demo".to_string(), true);
    let c = needs(&["demo"]);
    assert_eq!(host.conclude_constraint(&c, Ok(true)).unwrap(), true);
    assert_eq!(host.conclude_constraint(&c, Ok(false)).unwrap(), false);
    assert_eq!(host.conclude_constraint(&needs(&["other"]), Ok(true)).unwrap(), false);
    let bad = regex::Regex::new("[").unwrap_err();
    match host.conclude_constraint(&c, Err(bad.clone())) {
        Err(McError::Regex(e)) => assert_eq!(e, bad),
        other => panic!("expected the pattern's error, got {other:?}"),
    }
}

#[test]
fn library_is_needed_where_its_rules_pass() {
    let host = windows_host();
    let mut library = PistonLibrary {
        name: "org.lwjgl:lwjgl:3.3.1".to_string(),
        downloads: PistonArtifact { artifact: file("a.jar"), classifiers: None },
        natives: None,
        rules: vec![],
    };
    assert!(host.should_download_library(&library).unwrap());
    library.rules = vec![PistonRule::Allow(os("osx", "", ""))];
    assert!(!host.should_download_library(&library).unwrap());
    library.rules = vec![PistonRule::Deny(os("osx", "", ""))];
    assert!(host.should_download_library(&library).unwrap());
    library.rules = vec![PistonRule::Deny(os("", "", "("))];
    assert!(matches!(host.should_download_library(&library), Err(McError::Regex(_))));
}

#[test]
fn new_and_empty_matchers() {
    let host = windows_host();
    assert_eq!(host.os.name, "windows");
    assert_eq!(host.os.arch, "x86_64");
    assert_eq!(host.os.version, "10.0");
    assert!(host.features.entries.is_empty());
    let empty = PistonRuleMatcher::empty();
    assert_eq!(empty.os.name, "");
    assert_eq!(empty.os.arch, "");
    assert_eq!(empty.os.version, "");
    assert!(empty.features.entries.is_empty());
}

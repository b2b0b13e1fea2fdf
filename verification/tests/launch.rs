use mcapi::table::StringTable;
use mcapi::vanilla::{
    ArgumentValue, PistonArgument, PistonArtifact, PistonFile, PistonLibrary, PistonRule,
    PistonRuleConstraintOS, PistonRuleConstraints, PistonRuleMatcher,
};
use mcapi::template::{mark, replace_marked};
use mcapi::{dollar_repl, McError};

fn host() -> PistonRuleMatcher {
    PistonRuleMatcher::new("windows".to_string(), "x86_64".to_string(), "10.0".to_string())
}

fn table(pairs: &[(&str, &str)]) -> StringTable<String> {
    let mut t = StringTable::new();
    for (k, v) in pairs {
        t.insert(k.to_string(), v.to_string());
    }
    t
}

fn artifact(url: &str) -> PistonFile {
    PistonFile {
        sha1: "0a".to_string(),
        size: 1,
        url: url.to_string(),
        id: None,
        total_size: 1,
        path: Some(url.to_string()),
    }
}

fn feature_rule(name: &str) -> PistonRule {
    let mut t = StringTable::new();
    t.insert(name.to_string(), true);
    PistonRule::Allow(PistonRuleConstraints { os: None, features: Some(t) })
}

fn same_file(a: &PistonFile, b: &PistonFile) -> bool {
    a.sha1 == b.sha1
        && a.size == b.size
        && a.url == b.url
        && a.id == b.id
        && a.total_size == b.total_size
        && a.path == b.path
}

#[test]
fn text_without_placeholders_is_unchanged() {
    let m = host();
    let map = table(&[("a", "b"), ("arch", "no")]);
    for s in ["", "plain", "-Xmx2G", "$", "${", "${a", "$a}", "{a}", "$ {a}", "${a b}", "a$b{c}"] {
        assert_eq!(m.process_string(&map, s), s);
    }
}

#[test]
fn unknown_placeholder_stays_verbatim() {
    let m = host();
    assert_eq!(m.process_string(&StringTable::new(), "${unknown}"), "${unknown}");
    assert_eq!(m.process_string(&table(&[("known", "x")]), "a${unknown}b${}"), "a${unknown}b${}");
}

#[test]
fn arch_placeholder_comes_from_the_host() {
    let m = host();
    assert_eq!(m.process_string(&StringTable::new(), "${arch}"), "x86_64");
    assert_eq!(m.process_string(&table(&[("arch", "mips")]), "${arch}"), "x86_64");
    assert_eq!(m.replace(&table(&[("arch", "mips")]), "arch"), Some("x86_64".to_string()));
    assert_eq!(m.replace(&table(&[("arch", "mips")]), "Arch"), None);
}

#[test]
fn known_placeholders_are_replaced_once() {
    let m = host();
    let map = table(&[("a", "${b}"), ("b", "deep"), ("", "empty"), ("x_1", "y")]);
    assert_eq!(m.process_string(&map, "${a}"), "${b}");
    assert_eq!(m.process_string(&map, "<${b}|${a}|${x_1}|${}>"), "<deep|${b}|y|empty>");
    assert_eq!(m.process_string(&map, "$${b}}"), "$deep}");
    assert_eq!(m.process_string(&map, "${${b}"), "${deep");
    assert_eq!(m.process_string(&map, "${b}${b}"), "deepdeep");
    assert_eq!(m.process_string(&map, "${b"), "${b");
}

#[test]
fn names_are_made_of_word_characters() {
    let m = host();
    let map = table(&[("a-b", "no"), ("a b", "no"), ("\u{e9}t\u{e9}", "summer"), ("a.b", "no")]);
    assert_eq!(m.process_string(&map, "${a-b} ${a b} ${a.b}"), "${a-b} ${a b} ${a.b}");
    assert_eq!(m.process_string(&map, "${\u{e9}t\u{e9}}"), "summer");
}

#[test]
fn dollar_repl_hands_each_name_to_the_replacer() {
    let out = dollar_repl("a ${one} b ${two} c ${} d", |name| match name {
        "one" => Some("1".to_string()),
        "" => Some("nothing".to_string()),
        _ => None,
    });
    assert_eq!(out, "a 1 b ${two} c nothing d");
    assert_eq!(dollar_repl("${x}", |_| None), "${x}");
    assert_eq!(dollar_repl("", |_| Some("y".to_string())), "");
    assert_eq!(dollar_repl("\u{1F600}${x}\u{1F600}", |n| Some(n.to_uppercase())), "\u{1F600}X\u{1F600}");
}

#[test]
fn ruled_argument_is_left_out_where_the_feature_is_absent() {
    let templates = vec![
        PistonArgument::Normal("-Dfoo=${bar}".to_string()),
        PistonArgument::Ruled {
            rules: vec![feature_rule("demo")],
            value: ArgumentValue::Single("-Ddemo=true".to_string()),
        },
    ];
    let built = host().build_args(&templates, &table(&[("bar", "baz")])).unwrap();
    assert_eq!(built, vec!["-Dfoo=baz".to_string()]);
}

#[test]
fn ruled_arguments_come_in_order_each_on_its_own() {
    let mut m = host();
    m.features.insert("demo".to_string(), true);
    let templates = vec![
        PistonArgument::Normal("first".to_string()),
        PistonArgument::Ruled {
            rules: vec![feature_rule("demo")],
            value: ArgumentValue::Many(vec!["--width".to_string(), "${w}".to_string()]),
        },
        PistonArgument::Ruled {
            rules: vec![feature_rule("absent")],
            value: ArgumentValue::Many(vec!["never".to_string()]),
        },
        PistonArgument::Ruled {
            rules: vec![],
            value: ArgumentValue::Single("-Darch=${arch}".to_string()),
        },
        PistonArgument::Ruled { rules: vec![], value: ArgumentValue::Many(vec![]) },
        PistonArgument::Normal("${missing}".to_string()),
    ];
    let built = m.build_args(&templates, &table(&[("w", "800")])).unwrap();
    assert_eq!(built, vec!["first", "--width", "800", "-Darch=x86_64", "${missing}"]);
    assert_eq!(m.build_args(&[], &table(&[])).unwrap(), Vec::<String>::new());
}

#[test]
fn build_fails_as_a_whole_on_an_invalid_pattern() {
    let bad = PistonRule::Allow(PistonRuleConstraints {
        os: Some(PistonRuleConstraintOS {
            name: String::new(),
            arch: String::new(),
            version: "[".to_string(),
        }),
        features: None,
    });
    let templates = vec![
        PistonArgument::Normal("kept".to_string()),
        PistonArgument::Ruled { rules: vec![bad], value: ArgumentValue::Single("x".to_string()) },
        PistonArgument::Normal("after".to_string()),
    ];
    assert!(matches!(host().build_args(&templates, &table(&[])), Err(McError::Regex(_))));
}

#[test]
fn native_classifier_is_resolved_for_the_host() {
    let a = artifact("natives-windows-x86_64.jar");
    let mut keys = StringTable::new();
    keys.insert("windows".to_string(), "natives-windows-${arch}".to_string());
    let mut classifiers = StringTable::new();
    classifiers.insert("natives-windows-x86_64".to_string(), a.clone());
    classifiers.insert("natives-linux".to_string(), artifact("other.jar"));
    let library = PistonLibrary {
        name: "lwjgl".to_string(),
        downloads: PistonArtifact { artifact: artifact("main.jar"), classifiers: Some(classifiers) },
        natives: Some(keys),
        // The library's own rules exclude the host; the native file is found all the same.
        rules: vec![PistonRule::Deny(PistonRuleConstraints { os: None, features: None })],
    };
    let found = host().get_native_library(&library).expect("a native file");
    assert!(same_file(&found, &a));
    assert!(!host().should_download_library(&library).unwrap());
}

#[test]
fn no_native_file_without_key_or_classifier() {
    let mut keys = StringTable::new();
    keys.insert("windows".to_string(), "natives-windows-${arch}".to_string());
    let mut classifiers = StringTable::new();
    classifiers.insert("natives-windows-x86".to_string(), artifact("x86.jar"));
    let mut library = PistonLibrary {
        name: "lwjgl".to_string(),
        downloads: PistonArtifact { artifact: artifact("main.jar"), classifiers: Some(classifiers) },
        natives: Some(keys),
        rules: vec![],
    };
    // The resolved key names no classifier.
    assert!(host().get_native_library(&library).is_none());
    // Another system has no key.
    let linux = PistonRuleMatcher::new("linux".to_string(), "x86".to_string(), String::new());
    assert!(linux.get_native_library(&library).is_none());
    let win32 = PistonRuleMatcher::new("windows".to_string(), "x86".to_string(), String::new());
    assert!(same_file(&win32.get_native_library(&library).unwrap(), &artifact("x86.jar")));
    library.downloads.classifiers = None;
    assert!(win32.get_native_library(&library).is_none());
    library.natives = None;
    assert!(win32.get_native_library(&library).is_none());
}

#[test]
fn library_getters() {
    let mut classifiers = StringTable::new();
    classifiers.insert("natives-osx".to_string(), artifact("osx.jar"));
    let mut bare = artifact("bare.jar");
    bare.path = None;
    classifiers.insert("sources".to_string(), bare);
    let library = PistonLibrary {
        name: "lib".to_string(),
        downloads: PistonArtifact { artifact: artifact("main.jar"), classifiers: Some(classifiers) },
        natives: None,
        rules: vec![],
    };
    assert!(same_file(library.get_artifact(), &artifact("main.jar")));
    assert_eq!(library.get_artifact_path(), Some("main.jar".to_string()));
    assert!(same_file(&library.get_native("natives-osx").unwrap(), &artifact("osx.jar")));
    assert!(library.get_native("natives-linux").is_none());
    assert_eq!(library.get_native_path("natives-osx"), Some("osx.jar".to_string()));
    assert_eq!(library.get_native_path("sources"), None);
    assert_eq!(library.get_native_path("natives-linux"), None);
}

#[test]
fn marks_tell_word_characters_apart() {
    assert_eq!(
        mark("a_1 ${\u{e9}}-"),
        vec![
            ('a', true),
            ('_', true),
            ('1', true),
            (' ', false),
            ('$', false),
            ('{', false),
            ('\u{e9}', true),
            ('}', false),
            ('-', false),
        ]
    );
    assert_eq!(mark(""), vec![]);
}

#[test]
fn marked_text_is_replaced_by_its_marks() {
    let upper = |name: &str| Some(name.to_uppercase());
    let text = vec![('$', false), ('{', false), ('a', true), ('b', true), ('}', false)];
    assert_eq!(replace_marked(&text, upper), "AB");
    // A character that is not marked ends the name, and no placeholder is seen.
    let broken = vec![('$', false), ('{', false), ('a', true), ('b', false), ('}', false)];
    assert_eq!(replace_marked(&broken, upper), "${ab}");
    let none = |_: &str| None;
    assert_eq!(replace_marked(&text, none), "${ab}");
    assert_eq!(replace_marked(&vec![], upper), "");
}

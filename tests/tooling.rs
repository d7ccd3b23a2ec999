use powerpack::cargo::{binary_names, build, init, Mode, Target};
use powerpack::env::{
    is_debug, non_empty, parse_u32, preferences, version, version_build, workflow_bundle_id,
    workflow_cache, workflow_data, workflow_name, workflow_uid, workflow_version,
};

fn some(s: &str) -> Option<String> {
    Some(s.to_string())
}

#[test]
fn empty_values_are_absent() {
    assert_eq!(non_empty(None), None);
    assert_eq!(non_empty(some("")), None);
    assert_eq!(non_empty(some("x")), some("x"));
    assert_eq!(preferences(some("/p")), some("/p"));
    assert_eq!(version(some("")), None);
    assert_eq!(workflow_bundle_id(some("com.x")), some("com.x"));
    assert_eq!(workflow_name(None), None);
    assert_eq!(workflow_uid(some("u")), some("u"));
    assert_eq!(workflow_version(some("1.0")), some("1.0"));
    assert_eq!(workflow_cache(some("")), None);
    assert_eq!(workflow_data(some("/d")), some("/d"));
}

#[test]
fn debug_flag() {
    assert!(is_debug(some("1")));
    assert!(!is_debug(some("0")));
    assert!(!is_debug(some("11")));
    assert!(!is_debug(some("")));
    assert!(!is_debug(None));
}

#[test]
fn build_numbers() {
    assert_eq!(version_build(some("2170")), Some(2170));
    assert_eq!(version_build(some("+7")), Some(7));
    assert_eq!(version_build(some("4294967295")), Some(4294967295));
    assert_eq!(version_build(some("4294967296")), None);
    assert_eq!(version_build(some("")), None);
    assert_eq!(version_build(some("+")), None);
    assert_eq!(version_build(some("12a")), None);
    assert_eq!(version_build(some("-1")), None);
    assert_eq!(version_build(None), None);
    assert_eq!(parse_u32("0042"), Some(42));
}

#[test]
fn cargo_arguments() {
    assert_eq!(build(Mode::Debug), vec!["build".to_string()]);
    assert_eq!(build(Mode::Release), vec!["build".to_string(), "--release".to_string()]);
    assert_eq!(init("wf", None), vec!["init", "--bin", "wf"]);
    assert_eq!(init("wf", Some("n")), vec!["init", "--name", "n", "--bin", "wf"]);
    assert_eq!(Mode::Debug.dir(), "debug");
    assert_eq!(Mode::Release.dir(), "release");
}

#[test]
fn binary_targets() {
    let targets = vec![
        Target { name: "a".to_string(), kind: vec!["lib".to_string()] },
        Target { name: "b".to_string(), kind: vec!["bin".to_string()] },
        Target { name: "c".to_string(), kind: vec!["example".to_string(), "bin".to_string()] },
    ];
    assert_eq!(binary_names(&targets), vec!["b".to_string(), "c".to_string()]);
    assert_eq!(binary_names(&vec![]), Vec::<String>::new());
}

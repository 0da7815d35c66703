use super_duper::scan::{entry_action, is_ignored, EntryAction};
use super_duper::failure::{DetailValue, ProtocolFailure};
use super_duper::paths::PathStyle;
use super_duper::session::{check_run_start, finish_session, prepare_session, session_settings_text, validate_ignore_patterns, RegisteredCloudLocation};

fn strings(v: &[&str]) -> Vec<String> {
    v.iter().map(|s| s.to_string()).collect()
}

#[test]
fn sessions_are_checked_before_any_root_is_resolved() {
    let draft = prepare_session(
        " Photos ".to_owned(),
        strings(&[" /data/photos ", "/cloud/drive/x"]),
        "exclude_registered_roots".to_owned(),
        strings(&[]),
        vec![RegisteredCloudLocation {
            path: "/cloud/drive".to_owned(),
            provider_id: "p".to_owned(),
            display_name: "Drive".to_owned(),
        }],
        "complete".to_owned(),
        PathStyle::Unix,
    )
    .unwrap();
    assert_eq!(draft.name, "Photos");
    assert_eq!(draft.roots, strings(&["/data/photos", "/cloud/drive/x"]));
    assert_eq!(draft.resolvable, vec![true, false]);

    let session = finish_session(draft, vec![Some("/real/photos".to_owned()), None], strings(&["*.tmp", " *.tmp "])).unwrap();
    assert_eq!(session.roots, strings(&["/real/photos", "/cloud/drive/x"]));
    assert_eq!(session.ignore_patterns, strings(&["*.tmp"]));
}

#[test]
fn session_failures_name_their_field() {
    let fail = |name: &str, roots: &[&str]| {
        prepare_session(name.to_owned(), strings(roots), "exclude_registered_roots".to_owned(), vec![], vec![], "complete".to_owned(), PathStyle::Unix)
            .unwrap_err()
    };
    assert_eq!(fail("  ", &["/a"]).message, "Session name must contain 1 to 200 characters");
    assert_eq!(fail("n", &[]).message, "A session must contain 1 to 64 roots");
    let f = fail("n", &["/a", "relative"]);
    assert_eq!(f.message, "Every root must be a non-empty absolute filesystem path");
    assert_eq!(f.details[1].key, "rootIndex");
}

#[test]
fn ignore_patterns_must_be_globs() {
    assert_eq!(validate_ignore_patterns(strings(&["*.log", "*.log"])).unwrap(), strings(&["*.log"]));
    let f = validate_ignore_patterns(strings(&["[unclosed"])).unwrap_err();
    assert!(f.message.starts_with("Invalid ignore pattern '[unclosed': "));
    assert!(validate_ignore_patterns(strings(&["   "])).is_err());
}

#[test]
fn settings_json_has_sorted_keys() {
    let text = session_settings_text(&strings(&["/a"]), &strings(&[]), "exclude_registered_roots", &strings(&[]), &vec![], "complete");
    assert_eq!(
        text,
        r#"{"cloudDetectionStatus":"complete","cloudPolicy":"exclude_registered_roots","ignorePatterns":[],"manualLocationExclusions":[],"registeredCloudLocations":[],"roots":["/a"]}"#
    );
}

fn detail<'a>(f: &'a ProtocolFailure, key: &str) -> Option<&'a DetailValue> {
    f.details.iter().find(|d| d.key == key).map(|d| &d.value)
}

#[test]
fn default_cloud_policy_fails_closed_when_detection_is_unavailable() {
    let roots = strings(&["/tmp/scan"]);
    let failure = check_run_start(1, "exclude_registered_roots", "unavailable", &roots, &vec![], &vec![true], PathStyle::Unix).unwrap_err();
    assert_eq!(failure.code, "invalid_session");
    assert!(matches!(detail(&failure, "field"), Some(DetailValue::Text(f)) if f == "cloudDetectionStatus"));
    assert!(matches!(detail(&failure, "status"), Some(DetailValue::Text(s)) if s == "unavailable"));
    assert!(matches!(detail(&failure, "sessionId"), Some(DetailValue::Integer(1))));
}

#[test]
fn scans_start_only_with_the_excluding_policy_and_a_usable_root() {
    let roots = strings(&["/data/a", "/cloud/b"]);
    let failure = check_run_start(3, "include_all", "complete", &roots, &vec![], &vec![true, true], PathStyle::Unix).unwrap_err();
    assert_eq!(failure.message, "This version enables only the exclude_registered_roots cloud policy");
    let failure = check_run_start(3, "exclude_registered_roots", "complete", &roots, &vec![], &vec![false, false], PathStyle::Unix).unwrap_err();
    assert_eq!(failure.message, "At least one session root must be an accessible directory");
    assert!(matches!(detail(&failure, "field"), Some(DetailValue::Text(f)) if f == "roots"));
    assert!(check_run_start(3, "exclude_registered_roots", "complete", &roots, &vec![], &vec![false, true], PathStyle::Unix).is_ok());
    let exclusions = strings(&["/cloud"]);
    assert!(check_run_start(3, "exclude_registered_roots", "complete", &roots, &exclusions, &vec![false, false], PathStyle::Unix).is_ok());
}

#[test]
fn a_long_accented_name_inside_an_exclusion_is_accepted() {
    let name = format!(" {} ", "é".repeat(200));
    let draft = prepare_session(
        name,
        strings(&["/data/photos"]),
        "exclude_registered_roots".to_owned(),
        strings(&["/data"]),
        vec![],
        "complete".to_owned(),
        PathStyle::Unix,
    )
    .unwrap();
    assert_eq!(draft.resolvable, vec![false]);
    let session = finish_session(draft, vec![None], vec![]).unwrap();
    assert_eq!(session.name, "é".repeat(200));
    assert_eq!(session.roots, strings(&["/data/photos"]));
}

#[test]
fn oversized_settings_are_refused() {
    let draft = prepare_session(
        "n".to_owned(),
        strings(&["/a"]),
        "exclude_registered_roots".to_owned(),
        vec![],
        vec![],
        "complete".to_owned(),
        PathStyle::Unix,
    )
    .unwrap();
    let patterns: Vec<String> = (0..512).map(|i| format!("{}{}", "x".repeat(1020), i)).collect();
    let f = finish_session(draft, vec![None], patterns).unwrap_err();
    assert_eq!(f.message, "The combined session roots and ignore patterns are too large");
}

#[test]
fn ignore_globs_match_paths_and_must_compile() {
    assert!(is_ignored("/data/cache/a.tmp", &strings(&["*.log", "/data/cache*"])).unwrap());
    assert!(!is_ignored("/data/a.jpg", &strings(&["*.log"])).unwrap());
    assert!(!is_ignored("/data/a.jpg", &vec![]).unwrap());
    let f = is_ignored("/data/a.log", &strings(&["*.log", "[bad"])).unwrap_err();
    assert!(f.message.starts_with("Invalid ignore pattern '[bad': "));
    assert_eq!(entry_action(true, false, 0), EntryAction::Descend);
    assert_eq!(entry_action(false, false, 5), EntryAction::Take);
    assert_eq!(entry_action(false, true, 5), EntryAction::Skip);
    assert_eq!(entry_action(false, false, 0), EntryAction::Skip);
}

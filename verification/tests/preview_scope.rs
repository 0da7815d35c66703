use super_duper::scope::validate_group_filter;
use super_duper::scope::{
    parse_preference_preview_scope, DuplicateFileGroupFilterParameters, PreferencePreviewScope,
    PreferencePreviewScopeParameters,
};
use super_duper::choices::{DuplicateFileExtensionMatchMode, DuplicateFilePathMatchMode};

fn scope(kind: &str, group_ids: Vec<i64>, filter: DuplicateFileGroupFilterParameters) -> PreferencePreviewScopeParameters {
    PreferencePreviewScopeParameters { kind: kind.to_owned(), group_ids, filter }
}

#[test]
fn completed_run_scope_takes_nothing_else() {
    let mut s = scope("completed_run", vec![], DuplicateFileGroupFilterParameters::default());
    let (parsed, signature) = parse_preference_preview_scope(&mut s).unwrap();
    assert!(matches!(parsed, PreferencePreviewScope::CompletedRun));
    assert_eq!(signature, r#"{"kind":"completed_run"}"#);
    let mut s = scope("completed_run", vec![1], DuplicateFileGroupFilterParameters::default());
    let failure = parse_preference_preview_scope(&mut s).unwrap_err();
    assert_eq!(failure.code, "invalid_scope");
    assert_eq!(failure.message, "completed_run scope does not accept groupIds or filter fields");
}

#[test]
fn selected_sets_come_back_sorted() {
    let mut s = scope("selected_sets", vec![30, 4, 12], DuplicateFileGroupFilterParameters::default());
    let (parsed, signature) = parse_preference_preview_scope(&mut s).unwrap();
    match parsed {
        PreferencePreviewScope::SelectedSets(ids) => assert_eq!(ids, vec![4, 12, 30]),
        other => panic!("unexpected {other:?}"),
    }
    assert_eq!(signature, r#"{"groupIds":[4,12,30],"kind":"selected_sets"}"#);
}

#[test]
fn selected_sets_are_bounded_positive_and_distinct() {
    let message = |ids: Vec<i64>| {
        let mut s = scope("selected_sets", ids, DuplicateFileGroupFilterParameters::default());
        parse_preference_preview_scope(&mut s).unwrap_err().message
    };
    assert_eq!(message(vec![]), "selected_sets scope requires 1 to 500 groupIds");
    assert_eq!(message((1..=501).collect()), "selected_sets scope requires 1 to 500 groupIds");
    assert_eq!(message(vec![3, 0]), "scope.groupIds must contain positive IDs");
    assert_eq!(message(vec![3, 5, 3]), "scope.groupIds must not contain duplicates");
    let mut filter = DuplicateFileGroupFilterParameters::default();
    filter.across_drives = true;
    let mut s = scope("selected_sets", vec![1], filter);
    assert_eq!(parse_preference_preview_scope(&mut s).unwrap_err().message, "selected_sets scope does not accept filter fields");
}

#[test]
fn current_filter_scope_validates_like_a_group_page() {
    let filter = DuplicateFileGroupFilterParameters {
        search: Some("  holiday ".to_owned()),
        path_match: "substring".to_owned(),
        extension: Some("JPG".to_owned()),
        extension_match: "all".to_owned(),
        minimum_size: "1024".to_owned(),
        minimum_copy_count: 3,
        across_drives: true,
        selected_root: Some(String::new()),
        selected_drive: Some("D".to_owned()),
    };
    let mut s = scope("current_filter", vec![], filter);
    let (parsed, signature) = parse_preference_preview_scope(&mut s).unwrap();
    assert!(s.filter.search.is_none());
    match parsed {
        PreferencePreviewScope::CurrentFilter(f) => {
            assert_eq!(f.search.as_deref(), Some("holiday"));
            assert_eq!(f.path_match, DuplicateFilePathMatchMode::Substring);
            assert_eq!(f.extension_key.as_deref(), Some("jpg"));
            assert_eq!(f.extension_match, DuplicateFileExtensionMatchMode::AllMembers);
            assert_eq!((f.minimum_size, f.minimum_copy_count, f.across_drives), (1024, 3, true));
            assert_eq!(f.selected_root, None);
            assert_eq!(f.selected_drive.as_deref(), Some("D"));
        }
        other => panic!("unexpected {other:?}"),
    }
    assert_eq!(
        signature,
        r#"{"acrossDrives":true,"extension":"jpg","extensionMatch":"all","kind":"current_filter","minimumCopyCount":3,"minimumSize":1024,"pathMatch":"substring","search":"holiday","selectedDrive":"D","selectedRoot":""}"#
    );
}

#[test]
fn exact_path_match_without_search_falls_back_to_substring() {
    let mut filter = DuplicateFileGroupFilterParameters::default();
    filter.path_match = "exact".to_owned();
    let mut s = scope("current_filter", vec![], filter);
    let (parsed, signature) = parse_preference_preview_scope(&mut s).unwrap();
    match parsed {
        PreferencePreviewScope::CurrentFilter(f) => assert_eq!(f.path_match, DuplicateFilePathMatchMode::Substring),
        other => panic!("unexpected {other:?}"),
    }
    assert!(signature.contains(r#""extension":null"#));
    assert!(signature.contains(r#""search":"""#));
}

#[test]
fn current_filter_failures_come_in_order() {
    let message = |filter: DuplicateFileGroupFilterParameters, ids: Vec<i64>| {
        let mut s = scope("current_filter", ids, filter);
        let f = parse_preference_preview_scope(&mut s).unwrap_err();
        (f.code, f.message)
    };
    let base = DuplicateFileGroupFilterParameters::default;
    assert_eq!(message(base(), vec![1]).1, "current_filter scope does not accept groupIds");
    let mut f = base();
    f.path_match = "glob".to_owned();
    assert_eq!(message(f, vec![]).1, "filter.pathMatch must be substring or exact");
    let mut f = base();
    f.extension = Some("a.b".to_owned());
    assert_eq!(message(f, vec![]).0, "invalid_request");
    let mut f = base();
    f.extension_match = "most".to_owned();
    assert_eq!(message(f, vec![]).1, "filter.extensionMatch must be any or all");
    let mut f = base();
    f.minimum_size = "-5".to_owned();
    assert_eq!(message(f, vec![]).1, "scope.filter.minimumSize must be a non-negative decimal string");
    let mut f = base();
    f.minimum_copy_count = 1;
    assert_eq!(message(f, vec![]).1, "filter.minimumCopyCount must be an integer greater than or equal to 2");
}

#[test]
fn unknown_scope_kinds_list_the_allowed_ones() {
    let mut s = scope("everything", vec![], DuplicateFileGroupFilterParameters::default());
    let failure = parse_preference_preview_scope(&mut s).unwrap_err();
    assert_eq!(failure.code, "invalid_scope");
    assert_eq!(failure.details.len(), 2);
    assert_eq!(failure.details[1].key, "allowed");
}

#[test]
fn group_filters_are_validated_and_take_out_the_search() {
    let mut f = DuplicateFileGroupFilterParameters::default();
    f.search = Some(" beach ".to_owned());
    f.extension = Some("JPG".to_owned());
    f.minimum_size = "2048".to_owned();
    let parsed = validate_group_filter(&mut f, "minimumSize").unwrap();
    assert!(f.search.is_none());
    assert_eq!(parsed.search.as_deref(), Some("beach"));
    assert_eq!(parsed.minimum_size, 2048);
    assert_eq!(parsed.extension_key.as_deref(), Some("jpg"));
    let mut bad = DuplicateFileGroupFilterParameters::default();
    bad.path_match = "fuzzy".to_owned();
    bad.search = Some("x".to_owned());
    let failure = validate_group_filter(&mut bad, "minimumSize").unwrap_err();
    assert_eq!(failure.code, "invalid_request");
    assert_eq!(failure.message, "filter.pathMatch must be substring or exact");
    assert_eq!(bad.search.as_deref(), Some("x"));
    let mut small = DuplicateFileGroupFilterParameters::default();
    small.minimum_size = "abc".to_owned();
    assert!(validate_group_filter(&mut small, "minimumSize").is_err());
}

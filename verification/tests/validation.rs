use super_duper::choices::{
    extension_match_name, parse_drive_facet_sort_field, parse_folder_group_sort_field, parse_folder_member_sort_field,
    parse_group_sort_field, parse_member_sort_field, parse_path_match, parse_selected_root_facet_sort_field,
    parse_sort_direction, parse_warning_sort_field, path_match_name, DuplicateFileExtensionMatchMode,
    DuplicateFilePathMatchMode, SortDirection,
};
use super_duper::failure::DetailValue;
use super_duper::validate::{
    default_application_state, default_minimum_copy_count, default_page_size, default_result_page_size,
    normalize_extension_filter, normalize_extension_match, parse_non_negative_decimal, validate_group_path_filter,
    validate_minimum_copy_count, validate_operation_id, validate_page, validate_page_values,
    validate_preference_rule_parameters, validate_result_page_size, validate_search, warning_snapshot_state,
    PageParameters, PreferenceRuleSaveParameters,
};

#[test]
fn page_bounds_are_inclusive() {
    assert!(validate_page_values(0, 1).is_ok());
    assert!(validate_page_values(0, 500).is_ok());
    assert_eq!(validate_page_values(-1, 10).unwrap_err().code, "invalid_request");
    assert!(validate_page_values(0, 0).is_err());
    assert!(validate_page_values(0, 501).is_err());
    assert!(validate_page(&PageParameters::default()).is_ok());
    assert_eq!(PageParameters::default().limit, 100);
    assert_eq!(default_page_size(), 100);
    assert_eq!(default_result_page_size(), 200);
    assert!(validate_result_page_size(500).is_ok());
    assert!(validate_result_page_size(0).is_err());
}

#[test]
fn operation_ids_hold_one_to_128_characters() {
    assert!(validate_operation_id("op-1").is_ok());
    assert!(validate_operation_id(&"é".repeat(128)).is_ok());
    let failure = validate_operation_id(&"x".repeat(129)).unwrap_err();
    assert_eq!(failure.message, "operationId must contain 1 to 128 characters");
    assert!(validate_operation_id("").is_err());
}

#[test]
fn searches_are_trimmed_and_bounded() {
    assert_eq!(validate_search(Some("  photos ".to_owned())).unwrap(), Some("photos".to_owned()));
    assert_eq!(validate_search(Some("   ".to_owned())).unwrap(), None);
    assert_eq!(validate_search(None).unwrap(), None);
    assert!(validate_search(Some("x".repeat(513))).is_err());
    assert_eq!(
        validate_group_path_filter(Some(" /a/b ".to_owned()), DuplicateFilePathMatchMode::Exact).unwrap(),
        Some(" /a/b ".to_owned())
    );
    assert!(validate_group_path_filter(Some("x".repeat(600)), DuplicateFilePathMatchMode::Exact).is_ok());
    let failure = validate_group_path_filter(Some("x".repeat(32_768)), DuplicateFilePathMatchMode::Exact).unwrap_err();
    assert_eq!(failure.message, "filter.search may contain at most 32767 characters for exact path matching");
}

#[test]
fn extensions_are_lowercased_and_checked() {
    assert_eq!(normalize_extension_filter(Some("JPG")).unwrap(), Some("jpg".to_owned()));
    assert_eq!(normalize_extension_filter(Some("")).unwrap(), Some(String::new()));
    assert_eq!(normalize_extension_filter(None).unwrap(), None);
    for bad in [".jpg", "a/b", "a\\b"] {
        assert_eq!(normalize_extension_filter(Some(bad)).unwrap_err().code, "invalid_request");
    }
    assert_eq!(normalize_extension_match("all", Some("jpg")).unwrap(), DuplicateFileExtensionMatchMode::AllMembers);
    assert_eq!(normalize_extension_match("all", None).unwrap(), DuplicateFileExtensionMatchMode::AnyMember);
    assert_eq!(normalize_extension_match("any", Some("x")).unwrap(), DuplicateFileExtensionMatchMode::AnyMember);
    let failure = normalize_extension_match("some", None).unwrap_err();
    assert_eq!(failure.details.len(), 2);
    assert!(matches!(&failure.details[1].value, DetailValue::Texts(v) if v == &vec!["any".to_owned(), "all".to_owned()]));
    assert_eq!(extension_match_name(DuplicateFileExtensionMatchMode::AllMembers), "all");
}

#[test]
fn decimals_and_copy_counts() {
    assert_eq!(parse_non_negative_decimal("1024", "filter.minimumSize").unwrap(), 1024);
    assert_eq!(parse_non_negative_decimal("+7", "f").unwrap(), 7);
    assert_eq!(parse_non_negative_decimal("9223372036854775807", "f").unwrap(), i64::MAX);
    let failure = parse_non_negative_decimal("-1", "filter.minimumSize").unwrap_err();
    assert_eq!(failure.message, "filter.minimumSize must be a non-negative decimal string");
    assert!(parse_non_negative_decimal("9223372036854775808", "f").is_err());
    assert!(parse_non_negative_decimal("", "f").is_err());
    assert!(parse_non_negative_decimal(" 1", "f").is_err());
    assert!(validate_minimum_copy_count(2).is_ok());
    assert!(validate_minimum_copy_count(1).is_err());
    assert_eq!(default_minimum_copy_count(), 2);
}

#[test]
fn warning_snapshots_follow_the_run_status() {
    assert_eq!(warning_snapshot_state("running"), "active");
    assert_eq!(warning_snapshot_state("cancelling"), "active");
    assert_eq!(warning_snapshot_state("completed"), "terminal");
    assert_eq!(warning_snapshot_state("interrupted"), "terminal");
    assert_eq!(warning_snapshot_state("queued"), "pending");
    assert_eq!(default_application_state(), "all");
}

#[test]
fn choice_names_round_trip() {
    assert_eq!(parse_sort_direction("ascending").unwrap(), SortDirection::Ascending);
    assert_eq!(parse_sort_direction("descending").unwrap(), SortDirection::Descending);
    assert_eq!(parse_sort_direction("up").unwrap_err().message, "sort.direction must be ascending or descending");
    for mode in [DuplicateFilePathMatchMode::Substring, DuplicateFilePathMatchMode::Exact] {
        assert_eq!(parse_path_match(path_match_name(mode)).unwrap(), mode);
    }
    assert!(parse_path_match("regex").is_err());
    assert!(parse_group_sort_field("nonsense").is_err());
    assert!(parse_warning_sort_field("nonsense").is_err());
    assert!(parse_selected_root_facet_sort_field("nonsense").is_err());
    assert!(parse_drive_facet_sort_field("nonsense").is_err());
    assert!(parse_member_sort_field("nonsense").is_err());
    assert!(parse_folder_group_sort_field("nonsense").is_err());
    assert!(parse_folder_member_sort_field("nonsense").is_err());
}

fn rule(operation_id: &str, rule_id: Option<i64>, name: &str, roots: &[&str], expected_revision: i64) -> PreferenceRuleSaveParameters {
    PreferenceRuleSaveParameters {
        operation_id: operation_id.to_owned(),
        rule_id,
        name: name.to_owned(),
        roots: roots.iter().map(|r| r.to_string()).collect(),
        expected_revision,
    }
}

#[test]
fn preference_rules_are_checked_in_order() {
    assert!(validate_preference_rule_parameters(&rule("op", None, "Keep", &["/a", "/b"], 0)).is_ok());
    let message = |p| validate_preference_rule_parameters(&p).unwrap_err().message;
    assert_eq!(message(rule("", None, "Keep", &["/a"], 0)), "operationId must contain 1 to 128 characters");
    assert_eq!(message(rule("op", None, " Keep", &["/a"], 0)), "name must contain 1 to 128 characters without surrounding whitespace");
    assert_eq!(message(rule("op", None, "Keep", &[], 0)), "roots must contain 1 to 64 ordered paths");
    assert_eq!(message(rule("op", None, "Keep", &["/a"], 3)), "new rules require expectedRevision zero; revisions cannot be negative");
    assert!(validate_preference_rule_parameters(&rule("op", Some(4), "Keep", &["/a"], 3)).is_ok());
    assert_eq!(message(rule("op", None, "Keep", &["relative"], 0)), "each root must be a nonblank absolute path of at most 32767 characters");
    assert_eq!(message(rule("op", None, "Keep", &["/Photos", "/photos"], 0)), "roots must be unique ignoring case");
}

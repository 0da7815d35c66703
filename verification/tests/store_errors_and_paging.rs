use super_duper::choices::{
    DuplicateFileExtensionMatchMode, DuplicateFileGroupSortField, DuplicateFileMemberSortField, DuplicateFilePathMatchMode,
    DuplicateFolderGroupSortField, DuplicateFolderMemberSortField, RunWarningSortField, SortDirection,
};
use super_duper::cursor::decode_cursor_bytes;
use super_duper::errors::{
    preference_error, preflight_error, recovery_review_error, recycle_operation_error, review_error,
    review_live_hint_error, review_live_root_error, review_live_validation_error, PreferenceError, PreflightError,
    RecoveryReviewError, RecycleOperationError, ReviewError, ReviewLiveHintError, ReviewLiveRootError,
    ReviewLiveValidationError,
};
use super_duper::failure::DetailValue;
use super_duper::paging::{
    encode_folder_member_cursor, encode_group_cursor, folder_group_query_signature, folder_member_query_signature,
    group_query_signature, member_query_signature, warning_query_signature, FilterSignature, GroupRowKey,
};

#[test]
fn store_errors_keep_their_codes_and_identifiers() {
    let f = review_error(ReviewError::RunNotFound { run_id: 42 });
    assert_eq!((f.code.as_str(), f.message.as_str()), ("run_not_found", "Run 42 was not found"));
    assert!(matches!(f.details[0].value, DetailValue::Integer(42)));
    let f = preference_error(PreferenceError::Review(ReviewError::StaleRevision { expected: 3, actual: 5 }));
    assert_eq!(f.code, "review_generation_conflict");
    assert_eq!(f.message, "Review revision 3 is stale; current revision is 5");
    let f = preflight_error(PreflightError::Database("disk I/O error".to_owned()));
    assert_eq!((f.code.as_str(), f.message.as_str()), ("internal_error", "Database operation failed: disk I/O error"));
    let f = preflight_error(PreflightError::InvalidState { preflight_id: 7, status: "completed".to_owned() });
    assert_eq!(f.message, "Preflight 7 is already completed");
    assert_eq!(f.details.len(), 2);
    let f = recycle_operation_error(RecycleOperationError::AdmissionFailed {
        operation_id: "op".to_owned(),
        item_id: 9,
        reason_code: "missing".to_owned(),
    });
    assert_eq!(f.message, "Fresh admission rejected item 9: missing");
    let f = recycle_operation_error(RecycleOperationError::PreflightExpired { preflight_id: 1 });
    assert!(matches!(f.details[1].value, DetailValue::Integer(300)));
    let f = recovery_review_error(RecoveryReviewError::ObservationNotFound { observation_id: 11 });
    assert_eq!(f.message, "Recovery observation 11 was not found");
    let f = review_live_validation_error(ReviewLiveValidationError::InvalidRequest { message: "bad".to_owned() });
    assert_eq!((f.code.as_str(), f.message.as_str()), ("invalid_request", "bad"));
    let f = review_live_hint_error(ReviewLiveHintError::InvalidRunParameters { run_id: 2 });
    assert_eq!(f.code, "invalid_run_snapshot");
    let f = review_live_root_error(ReviewLiveRootError::StaleReconciliationCursor);
    assert_eq!(f.code, "dirty_reconciliation_conflict");
    assert!(f.details.is_empty());
    let f = preference_error(PreferenceError::RuleArchived { rule_id: 4 });
    assert!(matches!(&f.details[1].value, DetailValue::Text(t) if t == "archived"));
}

fn filter<'a>() -> FilterSignature<'a> {
    FilterSignature {
        search: Some("cat"),
        path_match: DuplicateFilePathMatchMode::Substring,
        extension: None,
        extension_match: DuplicateFileExtensionMatchMode::AnyMember,
        minimum_size: 0,
        minimum_copy_count: 2,
        across_drives: false,
    }
}

#[test]
fn query_signatures_are_canonical() {
    assert_eq!(
        group_query_signature(3, DuplicateFileGroupSortField::GroupSize, SortDirection::Descending, &filter(), None, Some("C")),
        r#"{"acrossDrives":false,"extension":null,"extensionMatch":"any","minimumCopyCount":2,"minimumSize":0,"pathMatch":"substring","runId":3,"search":"cat","selectedDrive":"C","selectedRoot":"","sortDirection":"descending","sortField":"groupSize"}"#
    );
    assert_eq!(
        member_query_signature(3, 8, DuplicateFileMemberSortField::Path, SortDirection::Ascending, None),
        "3|8|path|ascending|"
    );
    assert_eq!(
        folder_group_query_signature(3, DuplicateFolderGroupSortField::TotalBytes, SortDirection::Ascending, Some("x"), 10),
        "3|totalBytes|ascending|x|10"
    );
    assert_eq!(
        folder_member_query_signature(1, 2, DuplicateFolderMemberSortField::Path, SortDirection::Descending, None, 5, 6),
        "1|2|path|descending||5|6"
    );
    assert_eq!(
        warning_query_signature(1, RunWarningSortField::OccurrenceCount, SortDirection::Descending, 4, "running"),
        "1|occurrenceCount|descending|4|running"
    );
}

#[test]
fn row_cursors_record_the_sort_value() {
    let group = GroupRowKey {
        id: 12,
        recoverable_bytes: 2048,
        file_size: 1024,
        file_count: 3,
        representative_name: "a.jpg".to_owned(),
    };
    let cursor = encode_group_cursor(&group, DuplicateFileGroupSortField::RepresentativeName, true, "sig").unwrap();
    let json = String::from_utf8(decode_cursor_bytes(&cursor).unwrap()).unwrap();
    assert_eq!(
        json,
        r#"{"version":1,"kind":"duplicate-file-groups","query":"sig","before":true,"value":{"type":"text","value":"a.jpg"},"id":12}"#
    );
    let cursor = encode_group_cursor(&group, DuplicateFileGroupSortField::RecoverableBytes, false, "sig").unwrap();
    let json = String::from_utf8(decode_cursor_bytes(&cursor).unwrap()).unwrap();
    assert!(json.contains(r#""value":{"type":"integer","value":"2048"}"#));
    let cursor = encode_folder_member_cursor(5, &"/x/y".to_owned(), false, "q").unwrap();
    let json = String::from_utf8(decode_cursor_bytes(&cursor).unwrap()).unwrap();
    assert!(json.contains(r#""kind":"duplicate-folder-members""#));
}

use super_duper::choices::{
    DuplicateFileDriveFacetSortField, DuplicateFileExtensionMatchMode, DuplicateFileGroupSortField,
    DuplicateFilePathMatchMode, DuplicateFileSelectedRootFacetSortField, SortDirection,
};
use super_duper::cursor::{check_cursor_payload, decode_cursor_bytes, CursorPayload, CursorScalar, PageCursor, PageCursorValue};
use super_duper::failure::ProtocolFailure;
use super_duper::warnings::{
    check_warning_cursor_direction, check_warning_page_request, check_warning_snapshot_unchanged, take_page,
};
use super_duper::paging::{
    drive_facet_query_signature, encode_drive_facet_cursor, encode_group_cursor, encode_selected_root_facet_cursor,
    group_query_signature, page_links, selected_root_facet_query_signature, FacetRowKey, FilterSignature, GroupRowKey,
};

/// Reads a cursor as a page handler does: hex to JSON bytes, JSON to the
/// payload, then the payload against the expected kind and query.
fn decode_cursor(cursor: &str, kind: &str, query: &str) -> Result<PageCursor, ProtocolFailure> {
    let bytes = decode_cursor_bytes(cursor)?;
    let v: serde_json::Value = serde_json::from_slice(&bytes).expect("cursor JSON");
    let scalar = v["value"]["value"].as_str().unwrap().to_owned();
    let value = if v["value"]["type"] == "integer" { CursorScalar::Integer(scalar) } else { CursorScalar::Text(scalar) };
    let payload = CursorPayload {
        version: v["version"].as_u64().unwrap() as u8,
        kind: v["kind"].as_str().unwrap().to_owned(),
        query: v["query"].as_str().unwrap().to_owned(),
        before: v["before"].as_bool().unwrap(),
        value,
        id: v["id"].as_i64().unwrap(),
    };
    check_cursor_payload(payload, kind, query)
}

fn filter(extension_match: DuplicateFileExtensionMatchMode) -> FilterSignature<'static> {
    FilterSignature {
        search: None,
        path_match: DuplicateFilePathMatchMode::Substring,
        extension: Some("bin"),
        extension_match,
        minimum_size: 0,
        minimum_copy_count: 2,
        across_drives: false,
    }
}

#[test]
fn extension_match_mode_is_bound_to_all_duplicate_file_cursor_signatures() {
    let any = filter(DuplicateFileExtensionMatchMode::AnyMember);
    let all = filter(DuplicateFileExtensionMatchMode::AllMembers);

    let group_any = group_query_signature(
        1,
        DuplicateFileGroupSortField::RecoverableBytes,
        SortDirection::Descending,
        &any,
        None,
        None,
    );
    let group_all = group_query_signature(
        1,
        DuplicateFileGroupSortField::RecoverableBytes,
        SortDirection::Descending,
        &all,
        None,
        None,
    );
    let group_cursor = encode_group_cursor(
        &GroupRowKey {
            id: 1,
            recoverable_bytes: 100,
            file_size: 100,
            file_count: 2,
            representative_name: "one.bin".to_owned(),
        },
        DuplicateFileGroupSortField::RecoverableBytes,
        false,
        &group_any,
    )
    .unwrap();
    assert_eq!(decode_cursor(&group_cursor, "duplicate-file-groups", &group_all).unwrap_err().code, "invalid_cursor");
    assert!(decode_cursor(&group_cursor, "duplicate-file-groups", &group_any).is_ok());

    let root_any = selected_root_facet_query_signature(
        1,
        DuplicateFileSelectedRootFacetSortField::MatchingGroupCount,
        SortDirection::Descending,
        &any,
        None,
    );
    let root_all = selected_root_facet_query_signature(
        1,
        DuplicateFileSelectedRootFacetSortField::MatchingGroupCount,
        SortDirection::Descending,
        &all,
        None,
    );
    let root_cursor = encode_selected_root_facet_cursor(
        &FacetRowKey { cursor_id: 1, matching_group_count: 1, value: "/root".to_owned() },
        DuplicateFileSelectedRootFacetSortField::MatchingGroupCount,
        false,
        &root_any,
    )
    .unwrap();
    assert_eq!(
        decode_cursor(&root_cursor, "duplicate-file-selected-root-facets", &root_all).unwrap_err().code,
        "invalid_cursor"
    );

    let drive_any = drive_facet_query_signature(
        1,
        DuplicateFileDriveFacetSortField::MatchingGroupCount,
        SortDirection::Descending,
        &any,
        None,
    );
    let drive_all = drive_facet_query_signature(
        1,
        DuplicateFileDriveFacetSortField::MatchingGroupCount,
        SortDirection::Descending,
        &all,
        None,
    );
    let drive_cursor = encode_drive_facet_cursor(
        &FacetRowKey { cursor_id: 1, matching_group_count: 1, value: "D:".to_owned() },
        DuplicateFileDriveFacetSortField::MatchingGroupCount,
        false,
        &drive_any,
    )
    .unwrap();
    assert_eq!(
        decode_cursor(&drive_cursor, "duplicate-file-drive-facets", &drive_all).unwrap_err().code,
        "invalid_cursor"
    );
}

#[test]
fn page_links_follow_the_direction_of_travel() {
    let forward = PageCursor { value: PageCursorValue::Integer(5), id: 2, before: false };
    let backward = PageCursor { value: PageCursorValue::Integer(5), id: 2, before: true };
    assert_eq!(page_links(None, false, false, 3), (false, false));
    assert_eq!(page_links(None, true, false, 3), (true, true));
    assert_eq!(page_links(None, true, true, 3), (false, true));
    assert_eq!(page_links(Some(&forward), false, false, 3), (true, false));
    assert_eq!(page_links(Some(&backward), false, true, 3), (false, true));
    assert_eq!(page_links(Some(&backward), true, true, 3), (true, true));
    assert_eq!(page_links(Some(&forward), true, false, 0), (false, false));
}

#[test]
fn warning_pages_read_forward_within_one_snapshot() {
    assert!(check_warning_page_request(1, 500).is_ok());
    let failure = check_warning_page_request(0, 10).unwrap_err();
    assert_eq!(failure.code, "invalid_request");
    assert_eq!(failure.message, "warning.page requires a positive runId and pageSize between 1 and 500");
    assert!(check_warning_page_request(1, 501).is_err());
    let backward = PageCursor { value: PageCursorValue::Text("x".to_owned()), id: 1, before: true };
    assert_eq!(check_warning_cursor_direction(Some(&backward)).unwrap_err().code, "invalid_cursor");
    assert!(check_warning_cursor_direction(None).is_ok());
    assert!(check_warning_snapshot_unchanged(Some((3, "running")), 3, "running").is_ok());
    assert_eq!(check_warning_snapshot_unchanged(Some((3, "running")), 4, "running").unwrap_err().code, "invalid_cursor");
    assert!(check_warning_snapshot_unchanged(Some((3, "running")), 3, "completed").is_err());
    assert!(check_warning_snapshot_unchanged(None, 9, "failed").is_ok());
    let mut rows = vec![1, 2, 3];
    assert!(take_page(&mut rows, 2));
    assert_eq!(rows, vec![1, 2]);
    assert!(!take_page(&mut rows, 2));
    assert_eq!(rows, vec![1, 2]);
}
